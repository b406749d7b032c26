//! What holds of a call of cargo.

use crate::cargo::{
    cargo_arguments, cargo_invocation, feature_arguments, feature_notices_of, flag_if,
    flags_variable_of, jobs_arguments, own_arguments, platform_tool_variables, target_flags,
    variable_of_upper,
};
use crate::config::Config;
use crate::report::NoticeView;
use crate::sequence::{begins, begins_with_itself, begins_with_parts};
use crate::text::{decimal, decimal_holds_digits, slices, text_if, text_or_empty, texts, uppercase};
use vstd::prelude::*;

verus! {

/// How many arguments there are for a flag.
spec fn one_if(condition: bool) -> int {
    if condition {
        1
    } else {
        0
    }
}

/// A flag that is passed on stands right behind what is before it.
proof fn flag_has_its_place(
    arguments: Seq<Seq<char>>,
    before: Seq<Seq<char>>,
    condition: bool,
    flag: Seq<char>,
)
    requires
        begins(arguments, before + flag_if(condition, flag)),
    ensures
        begins(arguments, before),
        (before + flag_if(condition, flag)).len() == before.len() + one_if(condition),
        condition ==> arguments[before.len() as int] == flag,
{
    begins_with_parts(arguments, before, flag_if(condition, flag));
    if condition {
        let part = arguments.subrange(before.len() as int, (before.len() + 1) as int);
        assert(part == seq![flag]);
        assert(part[0] == flag);
    }
}

/// The number of jobs stands right behind what is before it.
proof fn jobs_have_their_place(
    arguments: Seq<Seq<char>>,
    before: Seq<Seq<char>>,
    jobs: Option<String>,
)
    requires
        begins(arguments, before + jobs_arguments(jobs)),
    ensures
        begins(arguments, before),
        (before + jobs_arguments(jobs)).len() == before.len() + 2 * one_if(jobs is Some),
        jobs matches Some(jobs) ==> arguments[before.len() as int] == "--jobs"@,
        jobs matches Some(jobs) ==> arguments[before.len() as int + 1] == jobs@,
{
    begins_with_parts(arguments, before, jobs_arguments(jobs));
    if jobs is Some {
        let part = arguments.subrange(before.len() as int, (before.len() + 2) as int);
        assert(part == seq!["--jobs"@, jobs->0@]);
        assert(part[0] == "--jobs"@ && part[1] == jobs->0@);
    }
}

/// A feature stands behind its flag, behind what is before all features and those before it.
proof fn feature_has_its_place(
    arguments: Seq<Seq<char>>,
    before: Seq<Seq<char>>,
    features: Seq<Seq<char>>,
    i: int,
)
    requires
        begins(arguments, before + feature_arguments(features)),
        0 <= i < features.len(),
    ensures
        arguments[before.len() + 2 * i] == "--features"@,
        arguments[before.len() + 2 * i + 1] == features[i],
{
    begins_with_parts(arguments, before, feature_arguments(features));
    let part = arguments.subrange(
        before.len() as int,
        (before.len() + 2 * features.len()) as int,
    );
    assert(part == feature_arguments(features));
    assert(part[2 * i] == "--features"@);
    assert(part[2 * i + 1] == features[i]);
}

/// The arguments up to the target.
#[verifier::opaque]
spec fn up_to_target(config: Config, triple: Seq<char>, toolchain: Seq<char>) -> Seq<Seq<char>> {
    flag_if(!config.no_rustup_override, "+"@ + toolchain) + seq!["build"@, "--target"@, triple]
}

/// The arguments up to that for a release build.
#[verifier::opaque]
spec fn up_to_release(config: Config, triple: Seq<char>, toolchain: Seq<char>) -> Seq<Seq<char>> {
    up_to_target(config, triple, toolchain) + flag_if(!config.debug, "--release"@)
}

/// The arguments up to that for the default features.
#[verifier::opaque]
spec fn up_to_defaults(config: Config, triple: Seq<char>, toolchain: Seq<char>) -> Seq<Seq<char>> {
    up_to_release(config, triple, toolchain) + flag_if(
        config.no_default_features,
        "--no-default-features"@,
    )
}

/// The arguments up to those for the features.
#[verifier::opaque]
spec fn up_to_features(config: Config, triple: Seq<char>, toolchain: Seq<char>) -> Seq<Seq<char>> {
    up_to_defaults(config, triple, toolchain) + feature_arguments(texts(config.features@))
}

/// The arguments up to that for a verbose build.
#[verifier::opaque]
spec fn up_to_verbose(config: Config, triple: Seq<char>, toolchain: Seq<char>) -> Seq<Seq<char>> {
    up_to_features(config, triple, toolchain) + flag_if(config.verbose, "--verbose"@)
}

/// The arguments up to that for a quiet build.
#[verifier::opaque]
spec fn up_to_quiet(config: Config, triple: Seq<char>, toolchain: Seq<char>) -> Seq<Seq<char>> {
    up_to_verbose(config, triple, toolchain) + flag_if(config.quiet, "--quiet"@)
}

/// The arguments up to those for the jobs.
#[verifier::opaque]
spec fn up_to_jobs(config: Config, triple: Seq<char>, toolchain: Seq<char>) -> Seq<Seq<char>> {
    up_to_quiet(config, triple, toolchain) + jobs_arguments(config.jobs)
}

/// The arguments up to those of the user.
#[verifier::opaque]
spec fn up_to_users(config: Config, triple: Seq<char>, toolchain: Seq<char>) -> Seq<Seq<char>> {
    up_to_jobs(config, triple, toolchain) + flag_if(config.workspace, "--workspace"@)
}

/// The arguments begin with each of their parts.
proof fn arguments_have_their_parts(config: Config, triple: Seq<char>, toolchain: Seq<char>)
    ensures
        cargo_arguments(config, triple, toolchain) == up_to_users(config, triple, toolchain)
            + slices(config.cargo_args@),
{
    reveal(up_to_target);
    reveal(up_to_release);
    reveal(up_to_defaults);
    reveal(up_to_features);
    reveal(up_to_verbose);
    reveal(up_to_quiet);
    reveal(up_to_jobs);
    reveal(up_to_users);
    assert(up_to_users(config, triple, toolchain) == own_arguments(config, triple, toolchain));
}

/// Where the arguments behind the features stand.
proof fn later_arguments_have_their_place(
    config: Config,
    triple: Seq<char>,
    toolchain: Seq<char>,
)
    ensures
        ({
            let arguments = cargo_arguments(config, triple, toolchain);
            let verbose = up_to_features(config, triple, toolchain).len() as int;
            let quiet = verbose + one_if(config.verbose);
            let jobs = quiet + one_if(config.quiet);
            let workspace = jobs + 2 * one_if(config.jobs is Some);
            &&& begins(arguments, up_to_features(config, triple, toolchain))
            &&& arguments.len() == workspace + one_if(config.workspace) + config.cargo_args@.len()
            &&& config.verbose ==> arguments[verbose] == "--verbose"@
            &&& config.quiet ==> arguments[quiet] == "--quiet"@
            &&& config.jobs matches Some(count) ==> arguments[jobs] == "--jobs"@
            &&& config.jobs matches Some(count) ==> arguments[jobs + 1] == count@
            &&& config.workspace ==> arguments[workspace] == "--workspace"@
        }),
{
    let arguments = cargo_arguments(config, triple, toolchain);
    arguments_have_their_parts(config, triple, toolchain);
    begins_with_itself(arguments);
    let users = up_to_users(config, triple, toolchain);
    begins_with_parts(arguments, users, slices(config.cargo_args@));
    let jobs = up_to_jobs(config, triple, toolchain);
    assert(begins(arguments, jobs) && users.len() == jobs.len() + one_if(config.workspace) && (config.workspace
        ==> arguments[jobs.len() as int] == "--workspace"@)) by {
        reveal(up_to_users);
        flag_has_its_place(arguments, jobs, config.workspace, "--workspace"@);
    }
    let quiet = up_to_quiet(config, triple, toolchain);
    assert(begins(arguments, quiet) && jobs.len() == quiet.len() + 2 * one_if(config.jobs is Some)
        && (config.jobs matches Some(count) ==> arguments[quiet.len() as int] == "--jobs"@
        && arguments[quiet.len() as int + 1] == count@)) by {
        reveal(up_to_jobs);
        jobs_have_their_place(arguments, quiet, config.jobs);
    }
    let verbose = up_to_verbose(config, triple, toolchain);
    assert(begins(arguments, verbose) && quiet.len() == verbose.len() + one_if(config.quiet) && (
    config.quiet ==> arguments[verbose.len() as int] == "--quiet"@)) by {
        reveal(up_to_quiet);
        flag_has_its_place(arguments, verbose, config.quiet, "--quiet"@);
    }
    let features = up_to_features(config, triple, toolchain);
    assert(begins(arguments, features) && verbose.len() == features.len() + one_if(config.verbose)
        && (config.verbose ==> arguments[features.len() as int] == "--verbose"@)) by {
        reveal(up_to_verbose);
        flag_has_its_place(arguments, features, config.verbose, "--verbose"@);
    }
    assert(arguments.len() == users.len() + config.cargo_args@.len());
}

/// Where the arguments up to the features stand.
proof fn earlier_arguments_have_their_place(
    config: Config,
    triple: Seq<char>,
    toolchain: Seq<char>,
)
    ensures
        ({
            let arguments = cargo_arguments(config, triple, toolchain);
            let named = one_if(!config.no_rustup_override);
            let defaults = named + 3 + one_if(!config.debug);
            let features = defaults + one_if(config.no_default_features);
            &&& up_to_defaults(config, triple, toolchain).len() == features
            &&& up_to_features(config, triple, toolchain).len() == features + 2
                * config.features@.len()
            &&& !config.no_rustup_override ==> arguments[0] == "+"@ + toolchain
            &&& arguments[named] == "build"@
            &&& arguments[named + 1] == "--target"@
            &&& arguments[named + 2] == triple
            &&& !config.debug ==> arguments[named + 3] == "--release"@
            &&& config.no_default_features ==> arguments[defaults] == "--no-default-features"@
        }),
{
    let arguments = cargo_arguments(config, triple, toolchain);
    later_arguments_have_their_place(config, triple, toolchain);
    let defaults = up_to_defaults(config, triple, toolchain);
    let features = up_to_features(config, triple, toolchain);
    assert(begins(arguments, defaults) && features.len() == defaults.len() + 2
        * config.features@.len()) by {
        reveal(up_to_features);
        begins_with_parts(arguments, defaults, feature_arguments(texts(config.features@)));
    }
    let release = up_to_release(config, triple, toolchain);
    assert(begins(arguments, release) && defaults.len() == release.len() + one_if(
        config.no_default_features,
    ) && (config.no_default_features ==> arguments[release.len() as int]
        == "--no-default-features"@)) by {
        reveal(up_to_defaults);
        flag_has_its_place(
            arguments,
            release,
            config.no_default_features,
            "--no-default-features"@,
        );
    }
    let target = up_to_target(config, triple, toolchain);
    assert(begins(arguments, target) && release.len() == target.len() + one_if(!config.debug) && (
    !config.debug ==> arguments[target.len() as int] == "--release"@)) by {
        reveal(up_to_release);
        flag_has_its_place(arguments, target, !config.debug, "--release"@);
    }
    let first = flag_if(!config.no_rustup_override, "+"@ + toolchain);
    let command = seq!["build"@, "--target"@, triple];
    let named = one_if(!config.no_rustup_override);
    assert(begins(arguments, first) && target.len() == named + 3 && arguments[named] == "build"@
        && arguments[named + 1] == "--target"@ && arguments[named + 2] == triple) by {
        reveal(up_to_target);
        begins_with_parts(arguments, first, command);
        let part = arguments.subrange(named, named + 3);
        assert(part == command);
        assert(part[0] == "build"@ && part[1] == "--target"@ && part[2] == triple);
    }
    if !config.no_rustup_override {
        assert(first =~= Seq::empty() + first);
        flag_has_its_place(arguments, Seq::empty(), true, "+"@ + toolchain);
    }
}

/// Cargo gets as many arguments as the configuration calls for, and each has its place: the
/// toolchain where it is named, the subcommand and the target, and each flag that is set. Where a
/// flag is not set, nothing stands in its place.
pub proof fn each_argument_has_its_place(
    config: Config,
    target_triple: Seq<char>,
    toolchain_name: Seq<char>,
)
    ensures
        ({
            let arguments = cargo_arguments(config, target_triple, toolchain_name);
            let named: int = if config.no_rustup_override {
                0
            } else {
                1
            };
            let defaults: int = named + 3 + if config.debug {
                0int
            } else {
                1int
            };
            let features: int = defaults + if config.no_default_features {
                1int
            } else {
                0int
            };
            let verbose: int = features + 2 * config.features@.len();
            let quiet: int = verbose + if config.verbose {
                1int
            } else {
                0int
            };
            let jobs: int = quiet + if config.quiet {
                1int
            } else {
                0int
            };
            let workspace: int = jobs + if config.jobs is Some {
                2int
            } else {
                0int
            };
            let own: int = workspace + if config.workspace {
                1int
            } else {
                0int
            };
            &&& arguments.len() == own + config.cargo_args@.len()
            &&& !config.no_rustup_override ==> {
                &&& arguments[0].len() == toolchain_name.len() + 1
                &&& arguments[0][0] == '+'
                &&& arguments[0].skip(1) == toolchain_name
            }
            &&& arguments[named] == "build"@
            &&& arguments[named + 1] == "--target"@
            &&& arguments[named + 2] == target_triple
            &&& !config.debug ==> arguments[named + 3] == "--release"@
            &&& config.no_default_features ==> arguments[defaults] == "--no-default-features"@
            &&& config.verbose ==> arguments[verbose] == "--verbose"@
            &&& config.quiet ==> arguments[quiet] == "--quiet"@
            &&& config.jobs matches Some(count) ==> arguments[jobs] == "--jobs"@
            &&& config.jobs matches Some(count) ==> arguments[jobs + 1] == count@
            &&& config.workspace ==> arguments[workspace] == "--workspace"@
        }),
{
    earlier_arguments_have_their_place(config, target_triple, toolchain_name);
    later_arguments_have_their_place(config, target_triple, toolchain_name);
    if !config.no_rustup_override {
        reveal_strlit("+");
        assert(("+"@ + toolchain_name).skip(1) =~= toolchain_name);
    }
}

/// Each feature stands behind a flag of its own, in the order in which they are given, right
/// behind the flag for the default features.
pub proof fn each_feature_has_its_place(
    config: Config,
    target_triple: Seq<char>,
    toolchain_name: Seq<char>,
    i: int,
)
    requires
        0 <= i < config.features@.len(),
    ensures
        ({
            let arguments = cargo_arguments(config, target_triple, toolchain_name);
            let features: int = (if config.no_rustup_override {
                3int
            } else {
                4int
            }) + (if config.debug {
                0int
            } else {
                1int
            }) + (if config.no_default_features {
                1int
            } else {
                0int
            });
            &&& arguments[features + 2 * i] == "--features"@
            &&& arguments[features + 2 * i + 1] == config.features@[i]@
        }),
{
    earlier_arguments_have_their_place(config, target_triple, toolchain_name);
    later_arguments_have_their_place(config, target_triple, toolchain_name);
    let arguments = cargo_arguments(config, target_triple, toolchain_name);
    let before = up_to_defaults(config, target_triple, toolchain_name);
    assert(begins(arguments, before + feature_arguments(texts(config.features@)))) by {
        reveal(up_to_features);
    }
    feature_has_its_place(arguments, before, texts(config.features@), i);
}

/// The arguments of the user stand last, all of them and in their order.
pub proof fn each_argument_of_the_user_has_its_place(
    config: Config,
    target_triple: Seq<char>,
    toolchain_name: Seq<char>,
    i: int,
)
    requires
        0 <= i < config.cargo_args@.len(),
    ensures
        ({
            let arguments = cargo_arguments(config, target_triple, toolchain_name);
            let own = arguments.len() - config.cargo_args@.len();
            &&& own >= 3
            &&& arguments[own + i] == config.cargo_args@[i]@
        }),
{
    earlier_arguments_have_their_place(config, target_triple, toolchain_name);
    later_arguments_have_their_place(config, target_triple, toolchain_name);
    arguments_have_their_parts(config, target_triple, toolchain_name);
    assert(slices(config.cargo_args@)[i] == config.cargo_args@[i]@);
}

/// How the fixed arguments are spelled, as far as it tells them apart.
proof fn fixed_arguments_differ()
    ensures
        "build"@.len() == 5,
        "--target"@.len() == 8,
        "--release"@.len() == 9,
        "--no-default-features"@.len() == 21,
        "--features"@.len() == 10,
        "--verbose"@.len() == 9,
        "--quiet"@.len() == 7,
        "--jobs"@.len() == 6,
        "--workspace"@.len() == 11,
        "--release"@[2] == 'r',
        "--verbose"@[2] == 'v',
        "--release"@[0] == '-',
        "--no-default-features"@[0] == '-',
        "--features"@[0] == '-',
        "--verbose"@[0] == '-',
        "--quiet"@[0] == '-',
        "--jobs"@[0] == '-',
        "--workspace"@[0] == '-',
{
    reveal_strlit("build");
    reveal_strlit("--target");
    reveal_strlit("--release");
    reveal_strlit("--no-default-features");
    reveal_strlit("--features");
    reveal_strlit("--verbose");
    reveal_strlit("--quiet");
    reveal_strlit("--jobs");
    reveal_strlit("--workspace");
}

/// A flag that is not asked for is not among the arguments before those of the user, unless the
/// target, a feature or the number of jobs is spelled like it.
pub proof fn flags_are_passed_on_only_where_asked_for(
    config: Config,
    target_triple: Seq<char>,
    toolchain_name: Seq<char>,
    flag: Seq<char>,
    i: int,
)
    requires
        target_triple != flag,
        forall|j: int| 0 <= j < config.features@.len() ==> #[trigger] config.features@[j]@ != flag,
        config.jobs matches Some(count) ==> count@ != flag,
        0 <= i < cargo_arguments(config, target_triple, toolchain_name).len()
            - config.cargo_args@.len(),
        cargo_arguments(config, target_triple, toolchain_name)[i] == flag,
    ensures
        flag == "--release"@ ==> !config.debug,
        flag == "--no-default-features"@ ==> config.no_default_features,
        flag == "--features"@ ==> config.features@.len() > 0,
        flag == "--verbose"@ ==> config.verbose,
        flag == "--quiet"@ ==> config.quiet,
        flag == "--jobs"@ ==> config.jobs is Some,
        flag == "--workspace"@ ==> config.workspace,
{
    fixed_arguments_differ();
    each_argument_has_its_place(config, target_triple, toolchain_name);
    let features: int = one_if(!config.no_rustup_override) + 3 + one_if(!config.debug) + one_if(
        config.no_default_features,
    );
    if features <= i < features + 2 * config.features@.len() {
        let feature: int = (i - features) / 2;
        each_feature_has_its_place(config, target_triple, toolchain_name, feature);
        assert(config.features@[feature]@ != flag);
        assert(i == features + 2 * feature || i == features + 2 * feature + 1);
    }
}

/// The flags of the user, where the configuration calls for none, are those for all targets, a
/// space, and those for this one.
pub proof fn user_flags_stand_alone_by_default(
    config: Config,
    rustflags: Option<Seq<char>>,
    target_rustflags: Option<Seq<char>>,
)
    requires
        !config.remap_cwd || config.debug,
        !config.optimize_size,
        !config.lto,
        config.sbf_stack_size is None,
    ensures
        ({
            let flags = target_flags(config, rustflags, target_rustflags);
            let all = match rustflags {
                Some(all) => all,
                None => Seq::empty(),
            };
            let one = match target_rustflags {
                Some(one) => one,
                None => Seq::empty(),
            };
            &&& flags.len() == all.len() + 1 + one.len()
            &&& flags.take(all.len() as int) == all
            &&& flags[all.len() as int] == ' '
            &&& flags.skip(all.len() as int + 1) == one
        }),
{
    reveal_strlit(" ");
    let flags = target_flags(config, rustflags, target_rustflags);
    let all = match rustflags {
        Some(all) => all,
        None => Seq::empty(),
    };
    let one = match target_rustflags {
        Some(one) => one,
        None => Seq::empty(),
    };
    assert(flags =~= all + " "@ + one);
    assert(flags.take(all.len() as int) =~= all);
    assert(flags.skip(all.len() as int + 1) =~= one);
}

/// Whether a text is another with a third put into it right behind this beginning, and with nothing
/// else changed.
#[verifier::opaque]
pub open spec fn put_behind(
    with: Seq<char>,
    without: Seq<char>,
    before: Seq<char>,
    text: Seq<char>,
) -> bool {
    let at = before.len() as int;
    &&& with.len() == without.len() + text.len()
    &&& at <= without.len()
    &&& with.take(at) == before
    &&& without.take(at) == before
    &&& with.subrange(at, at + text.len()) == text
    &&& with.skip(at + text.len()) == without.skip(at)
}

/// What a text with another put into it is made of.
proof fn insertion(before: Seq<char>, text: Seq<char>, last: Seq<char>)
    ensures
        put_behind(before + text + last, before + last, before, text),
{
    reveal(put_behind);
    let with = before + text + last;
    let without = before + last;
    let at = before.len() as int;
    assert(with.take(at) =~= before);
    assert(without.take(at) =~= before);
    assert(with.subrange(at, at + text.len()) =~= text);
    assert(with.skip(at + text.len()) =~= last);
    assert(without.skip(at) =~= last);
}

/// The last three parts of a text may be put together before they are added.
proof fn regroup(
    first: Seq<char>,
    second: Seq<char>,
    third: Seq<char>,
    fourth: Seq<char>,
    fifth: Seq<char>,
)
    ensures
        first + second + third + fourth + fifth == first + second + (third + fourth + fifth),
{
    assert(first + second + third + fourth + fifth =~= first + second + (third + fourth + fifth));
}

/// What holds of a text with another put before its last two parts.
proof fn insertion_before_the_last(
    with: Seq<char>,
    without: Seq<char>,
    before: Seq<char>,
    first: Seq<char>,
    text: Seq<char>,
    link: Seq<char>,
    stack: Seq<char>,
)
    requires
        with == first + text + link + stack,
        without == first + Seq::<char>::empty() + link + stack,
        before == first + Seq::<char>::empty() + Seq::<char>::empty() + Seq::<char>::empty(),
    ensures
        put_behind(with, without, before, text),
{
    assert(before =~= first);
    assert(with =~= first + text + (link + stack));
    assert(without =~= first + (link + stack));
    insertion(first, text, link + stack);
}

/// The flags are those that stand alone, those for paths, for size and for link time, and the size
/// of a stack frame.
proof fn flags_have_their_parts(
    config: Config,
    rustflags: Option<Seq<char>>,
    target_rustflags: Option<Seq<char>>,
    alone: Config,
)
    requires
        alone == (Config {
            remap_cwd: false,
            optimize_size: false,
            lto: false,
            sbf_stack_size: None,
            ..config
        }),
    ensures
        ({
            let base = target_flags(alone, rustflags, target_rustflags);
            let paths = text_if(config.remap_cwd && !config.debug, " -Zremap-cwd-prefix="@);
            let size = text_if(config.optimize_size, " -C opt-level=s"@);
            let link = text_if(config.lto, " -C embed-bitcode=yes -C lto=fat"@);
            let stack = match config.sbf_stack_size {
                Some(size) => " -C llvm-args=-sbf-stack-size="@ + decimal(size as nat),
                None => Seq::empty(),
            };
            target_flags(config, rustflags, target_rustflags) == base + paths + size + link + stack
        }),
{
    let user = text_or_empty(rustflags) + " "@ + text_or_empty(target_rustflags);
    let none = Seq::<char>::empty();
    assert(target_flags(alone, rustflags, target_rustflags) == user + none + none + none + none);
    assert(user + none + none + none + none =~= user);
}

/// Removing the current directory from paths adds one flag right behind those of the user, in
/// builds without debug objects and in no others, and changes nothing else, whatever the other
/// options are.
pub proof fn paths_are_remapped_by_one_flag(
    config: Config,
    rustflags: Option<Seq<char>>,
    target_rustflags: Option<Seq<char>>,
)
    ensures
        ({
            let text = " -Zremap-cwd-prefix="@;
            let with = target_flags(
                Config { remap_cwd: true, ..config },
                rustflags,
                target_rustflags,
            );
            let without = target_flags(
                Config { remap_cwd: false, ..config },
                rustflags,
                target_rustflags,
            );
            let before = target_flags(
                Config {
                    remap_cwd: false,
                    optimize_size: false,
                    lto: false,
                    sbf_stack_size: None,
                    ..config
                },
                rustflags,
                target_rustflags,
            );
            &&& config.debug ==> with == without
            &&& !config.debug ==> put_behind(with, without, before, text)
        }),
{
    let text = " -Zremap-cwd-prefix="@;
    let none = Seq::<char>::empty();
    let remapped = Config { remap_cwd: true, ..config };
    let kept = Config { remap_cwd: false, ..config };
    let alone = Config {
        remap_cwd: false,
        optimize_size: false,
        lto: false,
        sbf_stack_size: None,
        ..config
    };
    flags_have_their_parts(remapped, rustflags, target_rustflags, alone);
    flags_have_their_parts(kept, rustflags, target_rustflags, alone);
    let base = target_flags(alone, rustflags, target_rustflags);
    let size = text_if(config.optimize_size, " -C opt-level=s"@);
    let link = text_if(config.lto, " -C embed-bitcode=yes -C lto=fat"@);
    let stack = match config.sbf_stack_size {
        Some(size) => " -C llvm-args=-sbf-stack-size="@ + decimal(size as nat),
        None => none,
    };
    regroup(base, none, size, link, stack);
    regroup(base, text, size, link, stack);
    assert(base + none =~= base);
    insertion(base, text, size + link + stack);
}

/// Optimizing for size adds one flag right behind that for paths, and changes nothing else,
/// whatever the other options are.
pub proof fn size_is_optimized_by_one_flag(
    config: Config,
    rustflags: Option<Seq<char>>,
    target_rustflags: Option<Seq<char>>,
)
    ensures
        ({
            let text = " -C opt-level=s"@;
            let with = target_flags(
                Config { optimize_size: true, ..config },
                rustflags,
                target_rustflags,
            );
            let without = target_flags(
                Config { optimize_size: false, ..config },
                rustflags,
                target_rustflags,
            );
            let before = target_flags(
                Config { optimize_size: false, lto: false, sbf_stack_size: None, ..config },
                rustflags,
                target_rustflags,
            );
            put_behind(with, without, before, text)
        }),
{
    let text = " -C opt-level=s"@;
    let none = Seq::<char>::empty();
    let small = Config { optimize_size: true, ..config };
    let large = Config { optimize_size: false, ..config };
    let short = Config { optimize_size: false, lto: false, sbf_stack_size: None, ..config };
    let alone = Config {
        remap_cwd: false,
        optimize_size: false,
        lto: false,
        sbf_stack_size: None,
        ..config
    };
    flags_have_their_parts(small, rustflags, target_rustflags, alone);
    flags_have_their_parts(large, rustflags, target_rustflags, alone);
    flags_have_their_parts(short, rustflags, target_rustflags, alone);
    let base = target_flags(alone, rustflags, target_rustflags);
    let paths = text_if(config.remap_cwd && !config.debug, " -Zremap-cwd-prefix="@);
    let link = text_if(config.lto, " -C embed-bitcode=yes -C lto=fat"@);
    let stack = match config.sbf_stack_size {
        Some(size) => " -C llvm-args=-sbf-stack-size="@ + decimal(size as nat),
        None => none,
    };
    insertion_before_the_last(
        target_flags(small, rustflags, target_rustflags),
        target_flags(large, rustflags, target_rustflags),
        target_flags(short, rustflags, target_rustflags),
        base + paths,
        text,
        link,
        stack,
    );
}

/// The size of a stack frame adds its flag and its digits behind all that is there without it,
/// whatever the other options are.
pub proof fn the_stack_size_adds_one_flag(
    config: Config,
    size: u32,
    rustflags: Option<Seq<char>>,
    target_rustflags: Option<Seq<char>>,
)
    ensures
        target_flags(Config { sbf_stack_size: Some(size), ..config }, rustflags, target_rustflags)
            == target_flags(
            Config { sbf_stack_size: None, ..config },
            rustflags,
            target_rustflags,
        ) + (" -C llvm-args=-sbf-stack-size="@ + decimal(size as nat)),
{
    let without = Config { sbf_stack_size: None, ..config };
    let with = Config { sbf_stack_size: Some(size), ..config };
    assert(target_flags(with, rustflags, target_rustflags) =~= target_flags(
        without,
        rustflags,
        target_rustflags,
    ) + (" -C llvm-args=-sbf-stack-size="@ + decimal(size as nat)));
}

/// Link-time optimization adds its flags last where no size of a stack frame is set.
proof fn link_time_optimization_stands_last(
    config: Config,
    rustflags: Option<Seq<char>>,
    target_rustflags: Option<Seq<char>>,
)
    ensures
        target_flags(
            Config { lto: true, sbf_stack_size: None, ..config },
            rustflags,
            target_rustflags,
        ) == target_flags(
            Config { lto: false, sbf_stack_size: None, ..config },
            rustflags,
            target_rustflags,
        ) + " -C embed-bitcode=yes -C lto=fat"@,
{
    let without = Config { lto: false, sbf_stack_size: None, ..config };
    let with = Config { lto: true, sbf_stack_size: None, ..config };
    assert(target_flags(with, rustflags, target_rustflags) =~= target_flags(
        without,
        rustflags,
        target_rustflags,
    ) + " -C embed-bitcode=yes -C lto=fat"@);
}

/// Link-time optimization adds its flags right before the size of a stack frame, or last where
/// none is set, and changes nothing else, whatever the other options are.
pub proof fn link_time_optimization_adds_its_flags(
    config: Config,
    rustflags: Option<Seq<char>>,
    target_rustflags: Option<Seq<char>>,
)
    ensures
        ({
            let text = " -C embed-bitcode=yes -C lto=fat"@;
            let with = target_flags(
                Config { lto: true, ..config },
                rustflags,
                target_rustflags,
            );
            let without = target_flags(
                Config { lto: false, ..config },
                rustflags,
                target_rustflags,
            );
            let before = target_flags(
                Config { lto: false, sbf_stack_size: None, ..config },
                rustflags,
                target_rustflags,
            );
            &&& put_behind(with, without, before, text)
            &&& config.sbf_stack_size is None ==> without == before
            &&& config.sbf_stack_size matches Some(size) ==> without == before + (
            " -C llvm-args=-sbf-stack-size="@ + decimal(size as nat))
        }),
{
    let text = " -C embed-bitcode=yes -C lto=fat"@;
    let lto = Config { lto: true, ..config };
    let plain = Config { lto: false, ..config };
    let with = target_flags(lto, rustflags, target_rustflags);
    let without = target_flags(plain, rustflags, target_rustflags);
    let before = target_flags(
        Config { lto: false, sbf_stack_size: None, ..config },
        rustflags,
        target_rustflags,
    );
    link_time_optimization_stands_last(config, rustflags, target_rustflags);
    match config.sbf_stack_size {
        Some(size) => {
            let last = " -C llvm-args=-sbf-stack-size="@ + decimal(size as nat);
            the_stack_size_adds_one_flag(lto, size, rustflags, target_rustflags);
            the_stack_size_adds_one_flag(plain, size, rustflags, target_rustflags);
            assert(with == before + text + last);
            assert(without == before + last);
            insertion(before, text, last);
        },
        None => {
            let last = Seq::<char>::empty();
            assert(before + text =~= before + text + last);
            assert(before =~= before + last);
            insertion(before, text, last);
        },
    }
}

/// A text is nowhere behind the first of some parts where it holds a character that none of the
/// others does.
proof fn no_part_holds(
    whole: Seq<char>,
    first: Seq<char>,
    paths: Seq<char>,
    size: Seq<char>,
    link: Seq<char>,
    stack: Seq<char>,
    text: Seq<char>,
    k: int,
    i: int,
)
    requires
        whole == first + paths + size + link + stack,
        0 <= k < text.len(),
        !paths.contains(text[k]),
        !size.contains(text[k]),
        !link.contains(text[k]),
        !stack.contains(text[k]),
        first.len() <= i,
        i + text.len() <= whole.len(),
    ensures
        !(whole.subrange(i, i + text.len()) == text),
{
    let one = first.len() as int;
    let two = one + paths.len();
    let three = two + size.len();
    let four = three + link.len();
    let at = i + k;
    assert(whole.subrange(i, i + text.len())[k] == whole[at]);
    if at < two {
        assert(paths.contains(paths[at - one]));
    } else if at < three {
        assert(size.contains(size[at - two]));
    } else if at < four {
        assert(link.contains(link[at - three]));
    } else {
        assert(stack.contains(stack[at - four]));
    }
}

/// Which of the texts behind the flags of the user hold the characters that tell them apart.
proof fn flags_are_told_apart(size: Option<u32>)
    ensures
        ({
            let stack = match size {
                Some(size) => " -C llvm-args=-sbf-stack-size="@ + decimal(size as nat),
                None => Seq::empty(),
            };
            &&& !" -Zremap-cwd-prefix="@.contains('y')
            &&& !" -C opt-level=s"@.contains('y')
            &&& !stack.contains('y')
            &&& !" -C opt-level=s"@.contains('Z')
            &&& !" -C embed-bitcode=yes -C lto=fat"@.contains('Z')
            &&& !stack.contains('Z')
        }),
        " -C embed-bitcode=yes -C lto=fat"@.len() == 32,
        " -C embed-bitcode=yes -C lto=fat"@[18] == 'y',
        " -Zremap-cwd-prefix="@.len() == 20,
        " -Zremap-cwd-prefix="@[2] == 'Z',
{
    reveal_strlit(" -Zremap-cwd-prefix=");
    reveal_strlit(" -C opt-level=s");
    reveal_strlit(" -C embed-bitcode=yes -C lto=fat");
    reveal_strlit(" -C llvm-args=-sbf-stack-size=");
    if let Some(size) = size {
        decimal_holds_digits(size as nat);
    }
}

/// The flags for link time are nowhere behind those of the user where they are not asked for.
pub proof fn link_time_flags_are_given_only_where_asked_for(
    config: Config,
    rustflags: Option<Seq<char>>,
    target_rustflags: Option<Seq<char>>,
    i: int,
)
    requires
        !config.lto,
        i >= (match rustflags {
            Some(all) => all.len(),
            None => 0,
        }) + 1 + (match target_rustflags {
            Some(one) => one.len(),
            None => 0,
        }),
        i + " -C embed-bitcode=yes -C lto=fat"@.len() <= target_flags(
            config,
            rustflags,
            target_rustflags,
        ).len(),
    ensures
        !(target_flags(config, rustflags, target_rustflags).subrange(
            i,
            i + " -C embed-bitcode=yes -C lto=fat"@.len(),
        ) == " -C embed-bitcode=yes -C lto=fat"@),
{
    let alone = Config {
        remap_cwd: false,
        optimize_size: false,
        lto: false,
        sbf_stack_size: None,
        ..config
    };
    flags_have_their_parts(config, rustflags, target_rustflags, alone);
    user_flags_stand_alone_by_default(alone, rustflags, target_rustflags);
    flags_are_told_apart(config.sbf_stack_size);
    no_part_holds(
        target_flags(config, rustflags, target_rustflags),
        target_flags(alone, rustflags, target_rustflags),
        text_if(config.remap_cwd && !config.debug, " -Zremap-cwd-prefix="@),
        text_if(config.optimize_size, " -C opt-level=s"@),
        text_if(config.lto, " -C embed-bitcode=yes -C lto=fat"@),
        match config.sbf_stack_size {
            Some(size) => " -C llvm-args=-sbf-stack-size="@ + decimal(size as nat),
            None => Seq::empty(),
        },
        " -C embed-bitcode=yes -C lto=fat"@,
        18,
        i,
    );
}

/// The flag for paths is nowhere behind those of the user where it is not asked for, or where debug
/// objects are built.
pub proof fn the_flag_for_paths_is_given_only_where_asked_for(
    config: Config,
    rustflags: Option<Seq<char>>,
    target_rustflags: Option<Seq<char>>,
    i: int,
)
    requires
        !config.remap_cwd || config.debug,
        i >= (match rustflags {
            Some(all) => all.len(),
            None => 0,
        }) + 1 + (match target_rustflags {
            Some(one) => one.len(),
            None => 0,
        }),
        i + " -Zremap-cwd-prefix="@.len() <= target_flags(config, rustflags, target_rustflags).len(),
    ensures
        !(target_flags(config, rustflags, target_rustflags).subrange(
            i,
            i + " -Zremap-cwd-prefix="@.len(),
        ) == " -Zremap-cwd-prefix="@),
{
    let alone = Config {
        remap_cwd: false,
        optimize_size: false,
        lto: false,
        sbf_stack_size: None,
        ..config
    };
    flags_have_their_parts(config, rustflags, target_rustflags, alone);
    user_flags_stand_alone_by_default(alone, rustflags, target_rustflags);
    flags_are_told_apart(config.sbf_stack_size);
    no_part_holds(
        target_flags(config, rustflags, target_rustflags),
        target_flags(alone, rustflags, target_rustflags),
        text_if(config.remap_cwd && !config.debug, " -Zremap-cwd-prefix="@),
        text_if(config.optimize_size, " -C opt-level=s"@),
        text_if(config.lto, " -C embed-bitcode=yes -C lto=fat"@),
        match config.sbf_stack_size {
            Some(size) => " -C llvm-args=-sbf-stack-size="@ + decimal(size as nat),
            None => Seq::empty(),
        },
        " -Zremap-cwd-prefix="@,
        2,
        i,
    );
}

/// The flag for size is nowhere behind the first of some parts that do not hold it: a `p` with a `t`
/// behind it is in none of them.
proof fn no_part_holds_the_flag_for_size(
    whole: Seq<char>,
    first: Seq<char>,
    paths: Seq<char>,
    link: Seq<char>,
    stack: Seq<char>,
    i: int,
)
    requires
        whole == first + paths + Seq::<char>::empty() + link + stack,
        paths == " -Zremap-cwd-prefix="@ || paths.len() == 0,
        !link.contains('p'),
        !stack.contains('p'),
        first.len() <= i,
        i + " -C opt-level=s"@.len() <= whole.len(),
    ensures
        !(whole.subrange(i, i + " -C opt-level=s"@.len()) == " -C opt-level=s"@),
{
    reveal_strlit(" -Zremap-cwd-prefix=");
    reveal_strlit(" -C opt-level=s");
    let part = whole.subrange(i, i + 15);
    assert(part[5] == whole[i + 5] && part[6] == whole[i + 6]);
    let one = first.len() as int;
    let two = one + paths.len();
    let three = two + link.len();
    let at = i + 5;
    if at < two {
        assert(whole[at] == paths[at - one]);
        if at + 1 < two {
            assert(whole[at + 1] == paths[at + 1 - one]);
        }
    } else if at < three {
        assert(link.contains(link[at - two]));
    } else {
        assert(stack.contains(stack[at - three]));
    }
}

/// Which of the texts behind the flags of the user hold no `p`.
proof fn few_flags_hold_a_p(size: Option<u32>)
    ensures
        !" -C embed-bitcode=yes -C lto=fat"@.contains('p'),
        !(match size {
            Some(size) => " -C llvm-args=-sbf-stack-size="@ + decimal(size as nat),
            None => Seq::empty(),
        }).contains('p'),
{
    reveal_strlit(" -C embed-bitcode=yes -C lto=fat");
    reveal_strlit(" -C llvm-args=-sbf-stack-size=");
    if let Some(size) = size {
        decimal_holds_digits(size as nat);
    }
}

/// The flag for size is nowhere behind those of the user where it is not asked for.
pub proof fn the_flag_for_size_is_given_only_where_asked_for(
    config: Config,
    rustflags: Option<Seq<char>>,
    target_rustflags: Option<Seq<char>>,
    i: int,
)
    requires
        !config.optimize_size,
        i >= (match rustflags {
            Some(all) => all.len(),
            None => 0,
        }) + 1 + (match target_rustflags {
            Some(one) => one.len(),
            None => 0,
        }),
        i + " -C opt-level=s"@.len() <= target_flags(config, rustflags, target_rustflags).len(),
    ensures
        !(target_flags(config, rustflags, target_rustflags).subrange(
            i,
            i + " -C opt-level=s"@.len(),
        ) == " -C opt-level=s"@),
{
    let alone = Config {
        remap_cwd: false,
        optimize_size: false,
        lto: false,
        sbf_stack_size: None,
        ..config
    };
    flags_have_their_parts(config, rustflags, target_rustflags, alone);
    user_flags_stand_alone_by_default(alone, rustflags, target_rustflags);
    few_flags_hold_a_p(config.sbf_stack_size);
    no_part_holds_the_flag_for_size(
        target_flags(config, rustflags, target_rustflags),
        target_flags(alone, rustflags, target_rustflags),
        text_if(config.remap_cwd && !config.debug, " -Zremap-cwd-prefix="@),
        text_if(config.lto, " -C embed-bitcode=yes -C lto=fat"@),
        match config.sbf_stack_size {
            Some(size) => " -C llvm-args=-sbf-stack-size="@ + decimal(size as nat),
            None => Seq::empty(),
        },
        i,
    );
}

/// The variable for a target's flags is the target's name in upper case, with `_` for each `-`,
/// between a fixed beginning and a fixed end.
pub proof fn flags_variables_hold_the_name_of_the_target(target_triple: Seq<char>)
    ensures
        ({
            let name = uppercase(target_triple);
            let variable = flags_variable_of(target_triple);
            &&& variable == variable_of_upper(name)
            &&& variable.len() == 13 + name.len() + 10
            &&& variable.take(13) == "CARGO_TARGET_"@
            &&& variable.skip(13 + name.len() as int) == "_RUSTFLAGS"@
            &&& forall|i: int|
                0 <= i < name.len() ==> #[trigger] variable[13 + i] == if name[i] == '-' {
                    '_'
                } else {
                    name[i]
                }
        }),
{
    reveal_strlit("CARGO_TARGET_");
    reveal_strlit("_RUSTFLAGS");
    let name = uppercase(target_triple);
    let variable = flags_variable_of(target_triple);
    assert(variable.take(13) =~= "CARGO_TARGET_"@);
    assert(variable.skip(13 + name.len() as int) =~= "_RUSTFLAGS"@);
}

/// The same of a name that is in upper case already.
pub proof fn variables_hold_the_name_that_is_given(name: Seq<char>)
    ensures
        ({
            let variable = variable_of_upper(name);
            &&& variable.len() == 13 + name.len() + 10
            &&& variable.take(13) == "CARGO_TARGET_"@
            &&& variable.skip(13 + name.len() as int) == "_RUSTFLAGS"@
            &&& forall|i: int|
                0 <= i < name.len() ==> #[trigger] variable[13 + i] == if name[i] == '-' {
                    '_'
                } else {
                    name[i]
                }
        }),
{
    reveal_strlit("CARGO_TARGET_");
    reveal_strlit("_RUSTFLAGS");
    let variable = variable_of_upper(name);
    assert(variable.take(13) =~= "CARGO_TARGET_"@);
    assert(variable.skip(13 + name.len() as int) =~= "_RUSTFLAGS"@);
}

/// Every call of cargo gets the four tools of the platform, each below `llvm/bin`; it gets the
/// composed flags in the given variable and the composed arguments; `RUSTFLAGS` is removed exactly
/// where the user set it, even to nothing, and a script is written exactly where one is asked for.
pub proof fn calls_of_cargo_are_complete(
    config: Config,
    target_triple: Seq<char>,
    toolchain_name: Seq<char>,
    flags_variable: Seq<char>,
    rustflags: Option<Seq<char>>,
    target_rustflags: Option<Seq<char>>,
)
    ensures
        ({
            let call = cargo_invocation(
                config,
                target_triple,
                toolchain_name,
                flags_variable,
                rustflags,
                target_rustflags,
            );
            &&& call.tools == platform_tool_variables()
            &&& call.tools.len() == 4
            &&& call.tools[0].variable == "CC"@ && call.tools[0].path[2] == "clang"@
            &&& call.tools[1].variable == "AR"@ && call.tools[1].path[2] == "llvm-ar"@
            &&& call.tools[2].variable == "OBJDUMP"@ && call.tools[2].path[2] == "llvm-objdump"@
            &&& call.tools[3].variable == "OBJCOPY"@ && call.tools[3].path[2] == "llvm-objcopy"@
            &&& forall|i: int|
                0 <= i < 4 ==> {
                    let path = (#[trigger] call.tools[i]).path;
                    path.len() == 3 && path[0] == "llvm"@ && path[1] == "bin"@
                }
            &&& call.removes_rustflags <==> rustflags is Some
            &&& call.flags_variable == flags_variable
            &&& call.flags == target_flags(config, rustflags, target_rustflags)
            &&& call.arguments == cargo_arguments(config, target_triple, toolchain_name)
            &&& call.script_on_failure == config.generate_child_script_on_failure
        }),
{
}

/// The features are noticed exactly where there are some, all of them and in their order, and that
/// the default ones are left out is noticed exactly where they are, and first.
pub proof fn features_are_noticed_where_there_are_some(config: Config)
    ensures
        ({
            let notices = feature_notices_of(config);
            let left_out: int = if config.no_default_features {
                1
            } else {
                0
            };
            &&& notices.len() == left_out + if config.features@.len() > 0 {
                1int
            } else {
                0int
            }
            &&& config.no_default_features ==> notices[0] is NoDefaultFeatures
            &&& config.features@.len() > 0 ==> {
                &&& notices[left_out] matches NoticeView::Features { features }
                &&& features.len() == config.features@.len()
                &&& forall|i: int|
                    0 <= i < features.len() ==> #[trigger] features[i] == config.features@[i]@
            }
        }),
{
}

} // verus!

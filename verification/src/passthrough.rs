//! Build options that are handed through to Nix unchanged.

use vstd::prelude::*;
use vstd::string::StringExecFns;
use crate::text::texts;

verus! {

/// Options of a build that Nix understands itself.
#[derive(Debug)]
pub struct NixBuildPassthroughArgs {
    /// Number of concurrent jobs Nix should run.
    pub max_jobs: Option<usize>,
    /// Number of cores Nix should utilize.
    pub cores: Option<usize>,
    /// Logging format used by Nix.
    pub log_format: Option<String>,
    /// Continue building despite encountering errors.
    pub keep_going: bool,
    /// Keep build outputs from failed builds.
    pub keep_failed: bool,
    /// Attempt to build locally if substituters fail.
    pub fallback: bool,
    /// Repair corrupted store paths.
    pub repair: bool,
    /// Explicitly define remote builders.
    pub builders: Option<String>,
    /// Paths to include.
    pub include_paths: Vec<String>,
    /// Print build logs directly to stdout.
    pub print_build_logs: bool,
    /// Display tracebacks on errors.
    pub show_trace: bool,
    /// Accept configuration from flakes.
    pub accept_flake_config: bool,
    /// Refresh flakes to the latest revision.
    pub refresh: bool,
    /// Allow impure builds.
    pub impure: bool,
    /// Build without internet access.
    pub offline: bool,
    /// Prohibit network usage.
    pub no_net: bool,
    /// Recreate the flake.lock file entirely.
    pub recreate_lock_file: bool,
    /// Do not update the flake.lock file.
    pub no_update_lock_file: bool,
    /// Do not write a lock file.
    pub no_write_lock_file: bool,
    /// Do not use registries.
    pub no_use_registries: bool,
    /// Do not use registries (deprecated spelling).
    pub no_registries: bool,
    /// Commit the lock file after updates.
    pub commit_lock_file: bool,
    /// Suppress build output.
    pub no_build_output: bool,
    /// Use substitutes when copying.
    pub use_substitutes: bool,
    /// Output results in JSON format.
    pub json: bool,
}

/// The character that writes the digit `d`.
pub open spec fn digit_char(d: nat) -> char {
    if d == 0 {
        '0'
    } else if d == 1 {
        '1'
    } else if d == 2 {
        '2'
    } else if d == 3 {
        '3'
    } else if d == 4 {
        '4'
    } else if d == 5 {
        '5'
    } else if d == 6 {
        '6'
    } else if d == 7 {
        '7'
    } else if d == 8 {
        '8'
    } else {
        '9'
    }
}

/// A number written in base ten, without leading zeros.
pub open spec fn decimal(n: nat) -> Seq<char>
    decreases n,
{
    if n < 10 {
        seq![digit_char(n)]
    } else {
        decimal(n / 10).push(digit_char(n % 10))
    }
}

fn digit_text(d: usize) -> (s: &'static str)
    requires
        d < 10,
    ensures
        s@ == seq![digit_char(d as nat)],
{
    proof {
        reveal_strlit("0");
        reveal_strlit("1");
        reveal_strlit("2");
        reveal_strlit("3");
        reveal_strlit("4");
        reveal_strlit("5");
        reveal_strlit("6");
        reveal_strlit("7");
        reveal_strlit("8");
        reveal_strlit("9");
    }
    let s = if d == 0 {
        "0"
    } else if d == 1 {
        "1"
    } else if d == 2 {
        "2"
    } else if d == 3 {
        "3"
    } else if d == 4 {
        "4"
    } else if d == 5 {
        "5"
    } else if d == 6 {
        "6"
    } else if d == 7 {
        "7"
    } else if d == 8 {
        "8"
    } else {
        "9"
    };
    assert(s@ =~= seq![digit_char(d as nat)]);
    s
}

/// Writes a number in base ten.
pub fn decimal_text(n: usize) -> (s: String)
    ensures
        s@ == decimal(n as nat),
    decreases n,
{
    if n < 10 {
        digit_text(n).to_owned()
    } else {
        let mut s = decimal_text(n / 10);
        s.append(digit_text(n % 10));
        assert(s@ =~= decimal(n as nat));
        s
    }
}

/// An option that takes a number: the flag and the number, or nothing.
pub open spec fn with_number(flag: Seq<char>, value: Option<usize>) -> Seq<Seq<char>> {
    match value {
        Some(n) => seq![flag, decimal(n as nat)],
        None => Seq::empty(),
    }
}

/// An option that takes a text: the flag and the text, or nothing.
pub open spec fn with_text(flag: Seq<char>, value: Option<String>) -> Seq<Seq<char>> {
    match value {
        Some(t) => seq![flag, t@],
        None => Seq::empty(),
    }
}

/// A switch: the flag if it is set, or nothing.
pub open spec fn switch(flag: Seq<char>, set: bool) -> Seq<Seq<char>> {
    if set {
        seq![flag]
    } else {
        Seq::empty()
    }
}

/// `--include` before each path, in the order of the paths.
pub open spec fn include_args(paths: Seq<String>) -> Seq<Seq<char>>
    decreases paths.len(),
{
    if paths.len() == 0 {
        Seq::empty()
    } else {
        include_args(paths.drop_last()) + seq!["--include"@, paths.last()@]
    }
}

impl NixBuildPassthroughArgs {
    /// The Nix command line that these options stand for. Both spellings of
    /// the registry switch give `--no-use-registries`, once each. The
    /// options `commit_lock_file` and `use_substitutes` add nothing here.
    pub open spec fn command_line(&self) -> Seq<Seq<char>> {
        with_number("--max-jobs"@, self.max_jobs) + with_number("--cores"@, self.cores)
            + with_text("--log-format"@, self.log_format) + switch(
            "--keep-going"@,
            self.keep_going,
        ) + switch("--keep-failed"@, self.keep_failed) + switch("--fallback"@, self.fallback)
            + switch("--repair"@, self.repair) + with_text("--builders"@, self.builders)
            + include_args(self.include_paths@) + switch("--print-build-logs"@, self.print_build_logs)
            + switch("--show-trace"@, self.show_trace) + switch(
            "--accept-flake-config"@,
            self.accept_flake_config,
        ) + switch("--refresh"@, self.refresh) + switch("--impure"@, self.impure) + switch(
            "--offline"@,
            self.offline,
        ) + switch("--no-net"@, self.no_net) + switch(
            "--recreate-lock-file"@,
            self.recreate_lock_file,
        ) + switch("--no-update-lock-file"@, self.no_update_lock_file) + switch(
            "--no-write-lock-file"@,
            self.no_write_lock_file,
        ) + switch("--no-use-registries"@, self.no_use_registries) + switch(
            "--no-use-registries"@,
            self.no_registries,
        ) + switch("--no-build-output"@, self.no_build_output) + switch("--json"@, self.json)
    }

    /// Turns the options into arguments for Nix.
    #[must_use]
    pub fn generate_passthrough_args(&self) -> (args: Vec<String>)
        ensures
            texts(args@) == self.command_line(),
    {
        let mut args: Vec<String> = Vec::new();
        assert(texts(args@) =~= Seq::<Seq<char>>::empty());
        push_number(&mut args, "--max-jobs", self.max_jobs);
        push_number(&mut args, "--cores", self.cores);
        push_text(&mut args, "--log-format", &self.log_format);
        push_switch(&mut args, "--keep-going", self.keep_going);
        push_switch(&mut args, "--keep-failed", self.keep_failed);
        push_switch(&mut args, "--fallback", self.fallback);
        push_switch(&mut args, "--repair", self.repair);
        push_text(&mut args, "--builders", &self.builders);
        push_includes(&mut args, &self.include_paths);
        push_switch(&mut args, "--print-build-logs", self.print_build_logs);
        push_switch(&mut args, "--show-trace", self.show_trace);
        push_switch(&mut args, "--accept-flake-config", self.accept_flake_config);
        push_switch(&mut args, "--refresh", self.refresh);
        push_switch(&mut args, "--impure", self.impure);
        push_switch(&mut args, "--offline", self.offline);
        push_switch(&mut args, "--no-net", self.no_net);
        push_switch(&mut args, "--recreate-lock-file", self.recreate_lock_file);
        push_switch(&mut args, "--no-update-lock-file", self.no_update_lock_file);
        push_switch(&mut args, "--no-write-lock-file", self.no_write_lock_file);
        push_switch(&mut args, "--no-use-registries", self.no_use_registries);
        push_switch(&mut args, "--no-use-registries", self.no_registries);
        push_switch(&mut args, "--no-build-output", self.no_build_output);
        push_switch(&mut args, "--json", self.json);
        assert(texts(args@) =~= self.command_line());
        args
    }
}

fn push_number(args: &mut Vec<String>, flag: &str, value: Option<usize>)
    ensures
        texts(final(args)@) == texts(old(args)@) + with_number(flag@, value),
{
    match value {
        Some(n) => {
            args.push(flag.to_owned());
            args.push(decimal_text(n));
        },
        None => {},
    }
    assert(texts(args@) =~= texts(old(args)@) + with_number(flag@, value));
}

fn push_text(args: &mut Vec<String>, flag: &str, value: &Option<String>)
    ensures
        texts(final(args)@) == texts(old(args)@) + with_text(flag@, *value),
{
    match value {
        Some(t) => {
            args.push(flag.to_owned());
            args.push(t.clone());
        },
        None => {},
    }
    assert(texts(args@) =~= texts(old(args)@) + with_text(flag@, *value));
}

fn push_switch(args: &mut Vec<String>, flag: &str, set: bool)
    ensures
        texts(final(args)@) == texts(old(args)@) + switch(flag@, set),
{
    if set {
        args.push(flag.to_owned());
    }
    assert(texts(args@) =~= texts(old(args)@) + switch(flag@, set));
}

fn push_includes(args: &mut Vec<String>, paths: &Vec<String>)
    ensures
        texts(final(args)@) == texts(old(args)@) + include_args(paths@),
{
    let n: usize = paths.len();
    let mut i: usize = 0;
    assert(texts(args@) =~= texts(old(args)@) + include_args(paths@.take(0)));
    while i < n
        invariant
            n == paths@.len(),
            i <= n,
            texts(args@) == texts(old(args)@) + include_args(paths@.take(i as int)),
        decreases n - i,
    {
        assert(paths@.take(i + 1).drop_last() =~= paths@.take(i as int));
        assert(paths@.take(i + 1).last() == paths@[i as int]);
        let ghost before = texts(args@);
        args.push("--include".to_owned());
        args.push(paths[i].clone());
        assert(texts(args@) =~= before + seq!["--include"@, paths@[i as int]@]);
        assert(include_args(paths@.take(i + 1)) == include_args(paths@.take(i as int)) + seq![
            "--include"@,
            paths@[i as int]@,
        ]);
        assert(texts(args@) =~= texts(old(args)@) + include_args(paths@.take(i + 1)));
        i = i + 1;
    }
    assert(paths@.take(i as int) =~= paths@);
}

} // verus!

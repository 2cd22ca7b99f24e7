//! What deploying a project to its hosts comes down to: which hosts are
//! meant, where each is reached, what is built for it, and with which
//! arguments the tools are run.

use vstd::prelude::*;
use vstd::string::*;
use crate::arguments::{DeployType, NewProject, SshDeploy};
use crate::text::{join, joined, optional_view, text_views};

verus! {

/// Why a deployment cannot go ahead.
#[derive(Debug, Clone, Copy, PartialEq, Eq)]
pub enum DeployError {
    /// The ssh destination was overridden, but not exactly one host is
    /// deployed to.
    DestinationNeedsSingleHost,
    /// The project has no host.
    NoHosts,
    /// The project has several hosts and none was chosen.
    MultipleHosts,
    /// The host filter is no regular expression.
    BadHostFilter,
    /// The sub-command does not exist yet.
    NotImplemented,
}

/// What the user is told about `error`.
pub open spec fn error_text(error: DeployError) -> Seq<char> {
    match error {
        DeployError::DestinationNeedsSingleHost => "Host name can only be overriden when deploying to a single host. Use a host filter to limit to a single host."@,
        DeployError::NoHosts => "No hosts available for this robot. Please add a host configuration to flake.nix"@,
        DeployError::MultipleHosts => "Multiple hosts are available for this robot. Select one with the `--host` argument."@,
        DeployError::BadHostFilter => "Failed to compile regex expression for host filter"@,
        DeployError::NotImplemented => "New project sub-command is not yet implemented."@,
    }
}

impl DeployError {
    /// What the user is told about this error.
    pub fn describe(&self) -> (text: &'static str)
        ensures
            text@ == error_text(*self),
    {
        match self {
            DeployError::DestinationNeedsSingleHost => "Host name can only be overriden when deploying to a single host. Use a host filter to limit to a single host.",
            DeployError::NoHosts => "No hosts available for this robot. Please add a host configuration to flake.nix",
            DeployError::MultipleHosts => "Multiple hosts are available for this robot. Select one with the `--host` argument.",
            DeployError::BadHostFilter => "Failed to compile regex expression for host filter",
            DeployError::NotImplemented => "New project sub-command is not yet implemented.",
        }
    }
}

/// What `regex` makes of `pattern` and `text`: whether the regular expression
/// `pattern` matches somewhere in `text`, or `None` where `pattern` is no
/// regular expression that `regex::Regex::new` compiles.
pub uninterp spec fn regex_match(pattern: Seq<char>, text: Seq<char>) -> Option<bool>;

/// `regex::Regex::new` followed by `Regex::captures`: whether `pattern`,
/// compiled with the default limits, has a match anywhere in `text`, or
/// `None` where `pattern` does not compile.
#[verifier::external_body]
fn match_pattern(pattern: &str, text: &str) -> (matched: Option<bool>)
    ensures
        matched == regex_match(pattern@, text@),
{
    regex::Regex::new(pattern).ok().map(|regex| regex.captures(text).is_some())
}

/// The pattern that hosts are held against: the filter, or one that matches
/// every host where there is no filter.
pub open spec fn filter_pattern(filter: Option<Seq<char>>) -> Seq<char> {
    match filter {
        Some(pattern) => pattern,
        None => ".*"@,
    }
}

/// The test that `pattern` puts a host to.
pub open spec fn is_matched_by(pattern: Seq<char>) -> spec_fn(Seq<char>) -> bool {
    |host: Seq<char>| regex_match(pattern, host) == Some(true)
}

/// Those of `hosts` that `pattern` matches, in their order.
pub open spec fn matching_hosts(hosts: Seq<Seq<char>>, pattern: Seq<char>) -> Seq<Seq<char>> {
    hosts.filter(is_matched_by(pattern))
}

/// Keeps the hosts that the filter matches. The filter is first held
/// against the empty text: one that does not compile is an error even where
/// there is no host.
pub fn filter_hosts(hosts: Vec<String>, filter: Option<&str>) -> (kept: Result<
    Vec<String>,
    DeployError,
>)
    ensures
        regex_match(filter_pattern(optional_view(filter)), Seq::empty()) is None ==> kept == Err::<
            Vec<String>,
            DeployError,
        >(DeployError::BadHostFilter),
        regex_match(filter_pattern(optional_view(filter)), Seq::empty()) is Some ==> (kept matches Ok(
            list,
        ) && text_views(list@) == matching_hosts(text_views(hosts@), filter_pattern(optional_view(filter)))),
{
    let pattern: &str = match filter {
        Some(pattern) => pattern,
        None => ".*",
    };
    proof {
        reveal_strlit("");
        assert(""@ =~= Seq::<char>::empty());
    }
    if match_pattern(pattern, "").is_none() {
        return Err(DeployError::BadHostFilter);
    }
    let mut kept: Vec<String> = Vec::new();
    let mut i: usize = 0;
    let ghost all = text_views(hosts@);
    let ghost keep = is_matched_by(pattern@);
    assert(all.take(0) =~= Seq::<Seq<char>>::empty());
    while i < hosts.len()
        invariant
            i <= hosts.len(),
            all == text_views(hosts@),
            keep == is_matched_by(pattern@),
            text_views(kept@) == all.take(i as int).filter(keep),
        decreases hosts.len() - i,
    {
        let ghost kept_before = text_views(kept@);
        proof {
            assert(all.take(i + 1) =~= all.take(i as int).push(all[i as int]));
            all.take(i as int).lemma_filter_push(all[i as int], keep);
        }
        let matched = match_pattern(pattern, hosts[i].as_str());
        if matched == Some(true) {
            kept.push(hosts[i].clone());
            assert(text_views(kept@) =~= kept_before.push(all[i as int]));
        }
        i = i + 1;
    }
    assert(all.take(i as int) =~= all);
    Ok(kept)
}

/// Checks that an overridden ssh destination stands for one host only.
pub fn check_destination(args: &SshDeploy, hosts: &[String]) -> (checked: Result<(), DeployError>)
    ensures
        checked == (if args.destination is Some && hosts@.len() != 1 {
            Err::<(), DeployError>(DeployError::DestinationNeedsSingleHost)
        } else {
            Ok::<(), DeployError>(())
        }),
{
    if args.destination.is_some() && hosts.len() != 1 {
        Err(DeployError::DestinationNeedsSingleHost)
    } else {
        Ok(())
    }
}

/// Where `host` is reached over ssh: the destination that was given, or
/// else `root` on the host itself.
pub open spec fn destination_of(args: SshDeploy, host: Seq<char>) -> Seq<char> {
    match args.destination {
        Some(destination) => destination@,
        None => "root@"@ + host,
    }
}

/// Where `host` is reached over ssh.
pub fn ssh_destination(args: &SshDeploy, host: &str) -> (destination: String)
    ensures
        destination@ == destination_of(*args, host@),
{
    match &args.destination {
        Some(destination) => destination.clone(),
        None => {
            let mut destination = "root@".to_owned();
            destination.append(host);
            destination
        },
    }
}

/// The flake output that is built for `host`: the disk image, the installer
/// image, or nothing where the host is deployed to over ssh.
pub open spec fn target_of(deploy_type: DeployType, host: Seq<char>) -> Option<Seq<char>> {
    match deploy_type {
        DeployType::Ssh(_) => None,
        DeployType::DiskImage(_) => Some(
            ".#nixosConfigurations."@ + host + ".config.system.build.raw"@,
        ),
        DeployType::InstallerIso(_) => Some(
            ".#nixosConfigurations."@ + host + ".config.system.build.installer_iso"@,
        ),
    }
}

/// The flake output that is built for `host`.
pub fn build_target(deploy_type: &DeployType, host: &str) -> (target: Option<String>)
    ensures
        match target_of(*deploy_type, host@) {
            Some(text) => target matches Some(got) && got@ == text,
            None => target is None,
        },
{
    match deploy_type {
        DeployType::Ssh(_) => None,
        DeployType::DiskImage(_) => {
            let mut target = ".#nixosConfigurations.".to_owned();
            target.append(host);
            target.append(".config.system.build.raw");
            Some(target)
        },
        DeployType::InstallerIso(_) => {
            let mut target = ".#nixosConfigurations.".to_owned();
            target.append(host);
            target.append(".config.system.build.installer_iso");
            Some(target)
        },
    }
}

/// The host that is meant where none was named: the only one there is.
pub fn select_default_host(hosts: Vec<String>) -> (host: Result<String, DeployError>)
    ensures
        hosts@.len() == 0 ==> host == Err::<String, DeployError>(DeployError::NoHosts),
        hosts@.len() == 1 ==> (host matches Ok(name) && name@ == hosts@[0]@),
        hosts@.len() > 1 ==> host == Err::<String, DeployError>(DeployError::MultipleHosts),
{
    let mut hosts = hosts;
    let last = hosts.pop();
    if hosts.len() == 0 {
        match last {
            Some(host) => Ok(host),
            None => Err(DeployError::NoHosts),
        }
    } else {
        Err(DeployError::MultipleHosts)
    }
}

/// Creating a project is refused: there is no such sub-command yet.
pub fn new_project(_args: NewProject) -> (created: Result<(), DeployError>)
    ensures
        created == Err::<(), DeployError>(DeployError::NotImplemented),
{
    Err(DeployError::NotImplemented)
}

/// The value of `NIX_SSHOPTS` that makes every tool use the project's ssh
/// configuration.
pub open spec fn ssh_options_of(ssh_config: Seq<char>) -> Seq<char> {
    "-F "@ + ssh_config
}

/// The value of `NIX_SSHOPTS` for the ssh configuration at `ssh_config`.
pub fn ssh_options(ssh_config: &str) -> (options: String)
    ensures
        options@ == ssh_options_of(ssh_config@),
{
    let mut options = "-F ".to_owned();
    options.append(ssh_config);
    options
}

/// The arguments of `nixos-rebuild` that deploy `host` at `destination`.
pub open spec fn rebuild_arguments_of(
    build_machines: Seq<Seq<char>>,
    host: Seq<char>,
    destination: Seq<char>,
    switch: bool,
) -> Seq<Seq<char>> {
    seq![
        "--builders"@,
        joined(build_machines, ";"@),
        if switch { "switch"@ } else { "test"@ },
        "--flake"@,
        ".#"@ + host,
        "--target-host"@,
        destination,
    ]
}

/// The arguments of `nixos-rebuild` that deploy `host` at `destination`:
/// as the new boot default with `switch`, for a test without.
pub fn rebuild_arguments(build_machines: &[String], host: &str, destination: &str, switch: bool) -> (arguments:
    Vec<String>)
    ensures
        text_views(arguments@) == rebuild_arguments_of(
            text_views(build_machines@),
            host@,
            destination@,
            switch,
        ),
{
    let mut flake = ".#".to_owned();
    flake.append(host);
    let action = if switch {
        "switch".to_owned()
    } else {
        "test".to_owned()
    };
    let arguments = vec![
        "--builders".to_owned(),
        join(build_machines, ";"),
        action,
        "--flake".to_owned(),
        flake,
        "--target-host".to_owned(),
        destination.to_owned(),
    ];
    assert(text_views(arguments@) =~= rebuild_arguments_of(
        text_views(build_machines@),
        host@,
        destination@,
        switch,
    ));
    arguments
}

/// The arguments of `nix` that build `target` and link the result at
/// `out_link`.
pub open spec fn build_arguments_of(
    build_machines: Seq<Seq<char>>,
    out_link: Seq<char>,
    target: Seq<char>,
) -> Seq<Seq<char>> {
    seq!["--builders"@, joined(build_machines, ";"@), "build"@, "--out-link"@, out_link, target]
}

/// The arguments of `nix` that build `target` and link the result at
/// `out_link`.
pub fn build_arguments(build_machines: &[String], out_link: &str, target: &str) -> (arguments: Vec<
    String,
>)
    ensures
        text_views(arguments@) == build_arguments_of(text_views(build_machines@), out_link@, target@),
{
    let arguments = vec![
        "--builders".to_owned(),
        join(build_machines, ";"),
        "build".to_owned(),
        "--out-link".to_owned(),
        out_link.to_owned(),
        target.to_owned(),
    ];
    assert(text_views(arguments@) =~= build_arguments_of(text_views(build_machines@), out_link@, target@));
    arguments
}

/// The arguments of `ssh` that reach `host`, and run `command` there if one
/// is given.
pub open spec fn ssh_arguments_of(
    ssh_config: Seq<char>,
    host: Seq<char>,
    command: Option<Seq<char>>,
) -> Seq<Seq<char>> {
    match command {
        Some(command) => seq!["-F"@, ssh_config, host, command],
        None => seq!["-F"@, ssh_config, host],
    }
}

/// The arguments of `ssh` that reach `host`: with a command to run it there,
/// without one to open a terminal.
pub fn ssh_arguments(ssh_config: &str, host: &str, command: Option<&str>) -> (arguments: Vec<String>)
    ensures
        text_views(arguments@) == ssh_arguments_of(ssh_config@, host@, optional_view(command)),
{
    let mut arguments = vec!["-F".to_owned(), ssh_config.to_owned(), host.to_owned()];
    assert(text_views(arguments@) =~= ssh_arguments_of(ssh_config@, host@, None));
    match command {
        Some(command) => {
            arguments.push(command.to_owned());
            assert(text_views(arguments@) =~= ssh_arguments_of(ssh_config@, host@, Some(command@)));
        },
        None => {},
    }
    arguments
}

/// The steps of a path into a configuration, each falling back to `false`
/// where the setting is missing, and each wrapped around the one before it.
pub open spec fn step_query_of(path: Seq<Seq<char>>) -> Seq<char>
    decreases path.len(),
{
    if path.len() == 0 {
        Seq::empty()
    } else if path.len() == 1 {
        path[0] + " or false"@
    } else {
        "("@ + step_query_of(path.drop_last()) + ")."@ + path.last() + " or false"@
    }
}

/// The Nix expression that asks for the setting at `path` below a host's
/// configuration and takes a missing one for `false`: the steps of the path,
/// of which the last one starts from `config`.
pub open spec fn flag_query_of(path: Seq<Seq<char>>) -> Seq<char> {
    if path.len() <= 1 {
        step_query_of(path)
    } else {
        "(config."@ + step_query_of(path.drop_last()) + ")."@ + path.last() + " or false"@
    }
}

/// The Nix expression that asks for the setting at `field_path` and takes a
/// missing one for `false`. An empty path gives an empty expression.
pub fn config_flag_query(field_path: &[String]) -> (query: String)
    ensures
        query@ == flag_query_of(text_views(field_path@)),
{
    let ghost path = text_views(field_path@);
    if field_path.len() == 0 {
        return String::new();
    }
    let mut query = field_path[0].clone();
    query.append(" or false");
    if field_path.len() == 1 {
        return query;
    }
    let mut i: usize = 1;
    assert(path.take(1) =~= seq![path[0]]);
    while i < field_path.len() - 1
        invariant
            1 <= i <= field_path.len() - 1,
            path == text_views(field_path@),
            query@ == step_query_of(path.take(i as int)),
        decreases field_path.len() - i,
    {
        proof {
            assert(path.take(i + 1).drop_last() =~= path.take(i as int));
            assert(path.take(i + 1).last() == field_path@[i as int]@);
        }
        let mut wrapped = "(".to_owned();
        wrapped.append(query.as_str());
        wrapped.append(").");
        wrapped.append(field_path[i].as_str());
        wrapped.append(" or false");
        query = wrapped;
        i = i + 1;
    }
    proof {
        assert(path.drop_last() =~= path.take(i as int));
        assert(path.last() == field_path@[i as int]@);
    }
    let mut last = "(config.".to_owned();
    last.append(query.as_str());
    last.append(").");
    last.append(field_path[i].as_str());
    last.append(" or false");
    last
}

/// The arguments of `nix eval` that read the setting at `field_path` of
/// `host`.
pub open spec fn flag_arguments_of(host: Seq<char>, path: Seq<Seq<char>>) -> Seq<Seq<char>> {
    seq![
        "eval"@,
        "--read-only"@,
        "--apply"@,
        "config: "@ + flag_query_of(path),
        ".#nixosConfigurations."@ + host + ".config"@,
    ]
}

/// The arguments of `nix eval` that read the setting at `field_path` of
/// `host`.
pub fn config_flag_arguments(host: &str, field_path: &[String]) -> (arguments: Vec<String>)
    ensures
        text_views(arguments@) == flag_arguments_of(host@, text_views(field_path@)),
{
    let mut apply = "config: ".to_owned();
    apply.append(config_flag_query(field_path).as_str());
    let mut installable = ".#nixosConfigurations.".to_owned();
    installable.append(host);
    installable.append(".config");
    let arguments = vec![
        "eval".to_owned(),
        "--read-only".to_owned(),
        "--apply".to_owned(),
        apply,
        installable,
    ];
    assert(text_views(arguments@) =~= flag_arguments_of(host@, text_views(field_path@)));
    arguments
}

/// What `char::is_alphabetic` returns for `letter`.
pub uninterp spec fn is_alphabetic(letter: char) -> bool;

/// `char::is_alphabetic`: whether `letter` has the Unicode property
/// `Alphabetic`. Nothing more is claimed than that the answer depends on the
/// letter alone.
#[verifier::external_body]
fn alphabetic(letter: char) -> (answer: bool)
    ensures
        answer == is_alphabetic(letter),
{
    letter.is_alphabetic()
}

/// The letters of `text`, in order.
pub open spec fn letters_of(text: Seq<char>) -> Seq<char> {
    text.filter(|letter: char| is_alphabetic(letter))
}

/// The setting that `output` states: `true` or `false`, where its letters
/// spell that word, whatever stands between them.
pub open spec fn flag_of(output: Seq<char>) -> Option<bool> {
    if letters_of(output) == seq!['t', 'r', 'u', 'e'] {
        Some(true)
    } else if letters_of(output) == seq!['f', 'a', 'l', 's', 'e'] {
        Some(false)
    } else {
        None
    }
}

/// Reads the setting that `nix eval` printed.
pub fn parse_flag(output: &str) -> (flag: Option<bool>)
    ensures
        flag == flag_of(output@),
{
    let length = output.unicode_len();
    let mut letters: Vec<char> = Vec::new();
    let ghost keep = |letter: char| is_alphabetic(letter);
    let mut i: usize = 0;
    assert(output@.take(0) =~= Seq::<char>::empty());
    while i < length
        invariant
            i <= length,
            length == output@.len(),
            keep == (|letter: char| is_alphabetic(letter)),
            letters@ == output@.take(i as int).filter(keep),
        decreases length - i,
    {
        let letter = output.get_char(i);
        proof {
            assert(output@.take(i + 1) =~= output@.take(i as int).push(letter));
            output@.take(i as int).lemma_filter_push(letter, keep);
        }
        if alphabetic(letter) {
            letters.push(letter);
        }
        i = i + 1;
    }
    proof {
        assert(output@.take(i as int) =~= output@);
        assert(keep =~= (|letter: char| is_alphabetic(letter)));
    }
    if letters.len() == 4 && letters[0] == 't' && letters[1] == 'r' && letters[2] == 'u'
        && letters[3] == 'e' {
        assert(letters@ =~= seq!['t', 'r', 'u', 'e']);
        Some(true)
    } else if letters.len() == 5 && letters[0] == 'f' && letters[1] == 'a' && letters[2] == 'l'
        && letters[3] == 's' && letters[4] == 'e' {
        assert(letters@ =~= seq!['f', 'a', 'l', 's', 'e']);
        Some(false)
    } else {
        None
    }
}

} // verus!

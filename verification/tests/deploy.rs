use ros_tunnel::arguments::{
    Deploy, DeployType, DiskImage, InstallerISO, NewProject, RosAssistant, SshCommand, SshDeploy,
    SubCommand,
};
use ros_tunnel::deploy::{
    build_arguments, build_target, check_destination, config_flag_arguments, config_flag_query,
    filter_hosts, new_project, parse_flag, rebuild_arguments, select_default_host, ssh_arguments,
    ssh_destination, ssh_options, DeployError,
};
use ros_tunnel::text::join;

fn strings(words: &[&str]) -> Vec<String> {
    words.iter().map(|word| word.to_string()).collect()
}

#[test]
fn hosts_are_filtered_by_pattern() {
    let hosts = strings(&["robot-arm", "robot-base", "camera", "base-station"]);
    assert_eq!(filter_hosts(hosts.clone(), None), Ok(hosts.clone()));
    assert_eq!(
        filter_hosts(hosts.clone(), Some("^robot-")),
        Ok(strings(&["robot-arm", "robot-base"]))
    );
    assert_eq!(
        filter_hosts(hosts.clone(), Some("base")),
        Ok(strings(&["robot-base", "base-station"]))
    );
    assert_eq!(filter_hosts(hosts.clone(), Some("^$")), Ok(vec![]));
    assert_eq!(filter_hosts(hosts.clone(), Some("foo(bar")), Err(DeployError::BadHostFilter));
    assert_eq!(filter_hosts(vec![], Some("foo(bar")), Err(DeployError::BadHostFilter));
    assert_eq!(filter_hosts(vec![], Some("a")), Ok(vec![]));
}

#[test]
fn overridden_destination_needs_a_single_host() {
    let plain = SshDeploy { switch: false, destination: None };
    let overridden = SshDeploy { switch: true, destination: Some("admin@10.0.0.2".to_string()) };
    assert_eq!(check_destination(&plain, &strings(&[])), Ok(()));
    assert_eq!(check_destination(&plain, &strings(&["a", "b"])), Ok(()));
    assert_eq!(check_destination(&overridden, &strings(&["a"])), Ok(()));
    assert_eq!(
        check_destination(&overridden, &strings(&["a", "b"])),
        Err(DeployError::DestinationNeedsSingleHost)
    );
    assert_eq!(
        check_destination(&overridden, &strings(&[])),
        Err(DeployError::DestinationNeedsSingleHost)
    );
    assert_eq!(ssh_destination(&plain, "robot"), "root@robot");
    assert_eq!(ssh_destination(&overridden, "robot"), "admin@10.0.0.2");
}

#[test]
fn build_targets() {
    assert_eq!(
        build_target(&DeployType::DiskImage(DiskImage { link_path: None }), "pi"),
        Some(".#nixosConfigurations.pi.config.system.build.raw".to_string())
    );
    assert_eq!(
        build_target(&DeployType::InstallerIso(InstallerISO { link_path: None }), "pi"),
        Some(".#nixosConfigurations.pi.config.system.build.installer_iso".to_string())
    );
    assert_eq!(
        build_target(&DeployType::Ssh(SshDeploy { switch: false, destination: None }), "pi"),
        None
    );
}

#[test]
fn default_host_is_the_only_one() {
    assert_eq!(select_default_host(strings(&["only"])), Ok("only".to_string()));
    assert_eq!(select_default_host(vec![]), Err(DeployError::NoHosts));
    assert_eq!(select_default_host(strings(&["a", "b"])), Err(DeployError::MultipleHosts));
    assert_eq!(select_default_host(strings(&["a", "b", "c"])), Err(DeployError::MultipleHosts));
}

#[test]
fn new_project_is_refused() {
    assert_eq!(new_project(NewProject {}), Err(DeployError::NotImplemented));
    assert_eq!(
        DeployError::NotImplemented.describe(),
        "New project sub-command is not yet implemented."
    );
    assert_eq!(
        DeployError::MultipleHosts.describe(),
        "Multiple hosts are available for this robot. Select one with the `--host` argument."
    );
    assert_eq!(
        DeployError::NoHosts.describe(),
        "No hosts available for this robot. Please add a host configuration to flake.nix"
    );
    assert_eq!(
        DeployError::DestinationNeedsSingleHost.describe(),
        "Host name can only be overriden when deploying to a single host. Use a host filter to limit to a single host."
    );
    assert_eq!(
        DeployError::BadHostFilter.describe(),
        "Failed to compile regex expression for host filter"
    );
}

#[test]
fn joining() {
    assert_eq!(join(&strings(&[]), ";"), "");
    assert_eq!(join(&strings(&["a"]), ";"), "a");
    assert_eq!(join(&strings(&["a", "b", "c"]), ";"), ["a", "b", "c"].join(";"));
    assert_eq!(join(&strings(&["", ""]), ", "), ", ");
}

#[test]
fn tool_arguments() {
    let machines = strings(&["ssh://big x86_64-linux", "ssh://arm aarch64-linux"]);
    assert_eq!(
        rebuild_arguments(&machines, "pi", "root@pi", true),
        strings(&[
            "--builders",
            "ssh://big x86_64-linux;ssh://arm aarch64-linux",
            "switch",
            "--flake",
            ".#pi",
            "--target-host",
            "root@pi",
        ])
    );
    assert_eq!(
        rebuild_arguments(&[], "pi", "admin@1.2.3.4", false),
        strings(&["--builders", "", "test", "--flake", ".#pi", "--target-host", "admin@1.2.3.4"])
    );
    assert_eq!(
        build_arguments(&machines[..1], "result/pi", ".#nixosConfigurations.pi.config.system.build.raw"),
        strings(&[
            "--builders",
            "ssh://big x86_64-linux",
            "build",
            "--out-link",
            "result/pi",
            ".#nixosConfigurations.pi.config.system.build.raw",
        ])
    );
    assert_eq!(ssh_arguments("ssh_config", "pi", None), strings(&["-F", "ssh_config", "pi"]));
    assert_eq!(
        ssh_arguments("ssh_config", "pi", Some("systemctl stop firewall")),
        strings(&["-F", "ssh_config", "pi", "systemctl stop firewall"])
    );
    assert_eq!(ssh_options("/project/ssh_config"), "-F /project/ssh_config");
}

#[test]
fn command_line_values() {
    let args = RosAssistant {
        build_machine: strings(&["ssh://big x86_64-linux"]),
        subcommand: SubCommand::Deploy(Deploy {
            hosts: Some("pi".to_string()),
            project_root: Some(std::path::PathBuf::from("/project")),
            deploy_type: DeployType::Ssh(SshDeploy { switch: true, destination: None }),
        }),
    };
    assert_eq!(args.clone(), args);
    let ssh = SubCommand::Ssh(SshCommand { project_root: None, host: Some("pi".to_string()) });
    assert_ne!(args.subcommand, ssh);
    assert_ne!(SubCommand::NewProject(NewProject {}), ssh);
}

#[test]
fn configuration_flags() {
    assert_eq!(config_flag_query(&strings(&["auto-revert"])), "auto-revert or false");
    assert_eq!(
        config_flag_query(&strings(&["auto-revert", "enabled"])),
        "(config.auto-revert or false).enabled or false"
    );
    assert_eq!(
        config_flag_query(&strings(&["a", "b", "c"])),
        "(config.(a or false).b or false).c or false"
    );
    assert_eq!(
        config_flag_query(&strings(&["a", "b", "c", "d"])),
        "(config.((a or false).b or false).c or false).d or false"
    );
    assert_eq!(config_flag_query(&[]), "");
    assert_eq!(
        config_flag_arguments("pi", &strings(&["auto-revert", "enabled"])),
        strings(&[
            "eval",
            "--read-only",
            "--apply",
            "config: (config.auto-revert or false).enabled or false",
            ".#nixosConfigurations.pi.config",
        ])
    );
    assert_eq!(parse_flag("true"), Some(true));
    assert_eq!(parse_flag("false\n"), Some(false));
    assert_eq!(parse_flag("\"t r u e\" 1"), Some(true));
    assert_eq!(parse_flag("True"), None);
    assert_eq!(parse_flag(""), None);
    assert_eq!(parse_flag("truefalse"), None);
    assert_eq!(parse_flag("trué"), None);
}

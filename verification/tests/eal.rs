use dpdk_net::eal::{Eal, EalBuilder, EalOption, EalState, LogLevel, ProcessType};

fn strs(v: &[String]) -> Vec<&str> {
    v.iter().map(|s| s.as_str()).collect()
}

#[test]
fn builder_expands_options_in_order() {
    let b = EalBuilder::new()
        .program_name("prog")
        .no_huge()
        .no_pci()
        .vdev("net_ring0")
        .core_mask("0xf")
        .core_list("0-3")
        .memory_channels(4)
        .process_type(ProcessType::Secondary)
        .file_prefix("pfx")
        .socket_mem("1024,0")
        .log_level(LogLevel::Warning)
        .in_memory()
        .allow("0000:00:04.0")
        .option(EalOption::BaseVirtAddr("0x100000000".to_string()))
        .arg("--custom");
    let args = b.build_args(None);
    assert_eq!(
        strs(&args),
        vec![
            "prog", "--no-huge", "--no-pci", "--vdev=net_ring0", "-c", "0xf", "-l", "0-3", "-n", "4",
            "--proc-type=secondary", "--file-prefix=pfx", "--socket-mem=1024,0", "--log-level=5",
            "--in-memory", "-a", "0000:00:04.0", "--base-virtaddr=0x100000000", "--custom",
        ]
    );
}

#[test]
fn program_name_falls_back_to_invocation_then_default() {
    let b = EalBuilder::new().no_pci();
    assert_eq!(strs(&b.build_args(Some("/usr/bin/server".to_string()))), vec!["/usr/bin/server", "--no-pci"]);
    assert_eq!(strs(&b.build_args(None)), vec!["dpdk-app", "--no-pci"]);
}

#[test]
fn option_words() {
    assert_eq!(EalOption::ProgramName("x".to_string()).to_args(), vec!["x"]);
    assert_eq!(EalOption::MemoryChannels(0).to_args(), vec!["-n", "0"]);
    assert_eq!(EalOption::MemoryChannels(4294967295).to_args(), vec!["-n", "4294967295"]);
    assert_eq!(EalOption::LogLevel(LogLevel::Level(200)).to_args(), vec!["--log-level=200"]);
    assert_eq!(EalOption::ProcessType(ProcessType::Auto).to_args(), vec!["--proc-type=auto"]);
    assert_eq!(ProcessType::Primary.as_str(), "primary");
    assert_eq!(LogLevel::Emergency.as_str(), "1");
    assert_eq!(LogLevel::Debug.as_str(), "8");
    assert_eq!(EalOption::Custom("--foo=bar".to_string()).to_args(), vec!["--foo=bar"]);
}

#[test]
fn eal_is_initialized_once_at_a_time() {
    let mut state = EalState::new();
    assert!(!Eal::is_initialized(&state));
    let args = EalBuilder::new().program_name("p").init(None, &mut state).unwrap();
    assert_eq!(args, vec!["p"]);
    assert!(Eal::is_initialized(&state));
    let again = EalBuilder::new().init(None, &mut state);
    assert_eq!(again.err(), Some(nix::errno::Errno::EALREADY));
    let eal = state.finish_init(0, 0).unwrap();
    assert!(Eal::is_initialized(&state));
    state.cleanup(eal);
    assert!(!Eal::is_initialized(&state));
}

#[test]
fn failed_init_can_be_retried() {
    let mut state = EalState::new();
    state.begin_init().unwrap();
    let e = state.finish_init(-1, 22).err().unwrap();
    assert_eq!(e, nix::errno::Errno::EINVAL);
    assert!(!Eal::is_initialized(&state));
    assert!(state.begin_init().is_ok());
}

#[test]
fn low_level_init_and_cleanup_are_recorded() {
    let mut state = EalState::new();
    assert_eq!(state.record_init(-1, 12), Err(nix::errno::Errno::ENOMEM));
    assert!(!Eal::is_initialized(&state));
    assert_eq!(state.record_init(0, 0), Ok(()));
    assert!(Eal::is_initialized(&state));
    assert_eq!(state.begin_init(), Err(nix::errno::Errno::EALREADY));
    assert_eq!(state.record_cleanup(-1, 16), Err(nix::errno::Errno::EBUSY));
    assert!(Eal::is_initialized(&state));
    assert_eq!(state.record_cleanup(0, 0), Ok(()));
    assert!(!Eal::is_initialized(&state));
    assert!(state.begin_init().is_ok());
}

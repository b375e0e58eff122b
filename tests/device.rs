use rsonance::{
    cleanup_virtual_microphone, find_module_id, get_virtual_microphone_module_id,
    pipe_source_load_args, setup_virtual_microphone, setup_virtual_microphone_with_config,
    DeviceAction, DeviceError, DeviceEvent, ModuleCleanup, ModuleLookup, SetupTask,
    VirtualMicResult, DEFAULT_PIPE_PATH, DEFAULT_SOURCE_NAME,
};

const LISTING: &str = "0\tmodule-device-restore\t\t\n\
12\tmodule-pipe-source\tsource_name=other_mic file=/tmp/other\n\
23\tmodule-pipe-source\tsource_name=rsonance_virtual_microphone file=/tmp/rsonance_audio_pipe format=s16le\n\
24\tmodule-null-sink\tsink_name=rsonance_virtual_microphone\n";

fn listed(text: &str) -> DeviceEvent {
    DeviceEvent::ControlExited { success: true, output: Some(text.to_string()) }
}

fn run_setup(task: &mut SetupTask, pipe: DeviceEvent, control: DeviceEvent) {
    let mut pipe = Some(pipe);
    let mut control = Some(control);
    loop {
        match task.next_action() {
            DeviceAction::RecreatePipe { .. } => task.on_event(pipe.take().unwrap()),
            DeviceAction::RunControl { .. } => task.on_event(control.take().unwrap()),
            DeviceAction::Finished => break,
        }
    }
}

#[test]
fn test_setup_virtual_microphone_integration() {
    let mut task = setup_virtual_microphone();
    run_setup(&mut task, DeviceEvent::PipeCreated, DeviceEvent::ControlNotStarted);
    match task.result() {
        Some(Ok(VirtualMicResult::Success)) | Some(Ok(VirtualMicResult::Failed)) => {}
        Some(Err(_)) => {}
        None => panic!("setup did not finish"),
    }
}

#[test]
fn test_virtual_mic_result_debug() {
    assert_eq!(format!("{:?}", VirtualMicResult::Success), "Success");
    assert_eq!(format!("{:?}", VirtualMicResult::Failed), "Failed");
}

#[test]
fn test_get_virtual_microphone_module_id() {
    let mut lookup = get_virtual_microphone_module_id();
    assert!(matches!(lookup.next_action(), DeviceAction::RunControl { .. }));
    lookup.on_event(listed("3\tmodule-null-sink\n"));
    match lookup.result() {
        Some(Ok(None)) => {}
        Some(Ok(Some(module_id))) => assert!(!module_id.is_empty()),
        Some(Err(_)) => {}
        None => panic!("lookup did not finish"),
    }
}

#[test]
fn test_cleanup_virtual_microphone() {
    let mut cleanup = cleanup_virtual_microphone();
    cleanup.on_event(listed(LISTING));
    cleanup.on_event(DeviceEvent::ControlExited { success: true, output: Some(String::new()) });
    match cleanup.result() {
        Some(Ok(true)) | Some(Ok(false)) | Some(Err(_)) => {}
        None => panic!("cleanup did not finish"),
    }
}

#[test]
fn setup_recreates_pipe_then_loads_module() {
    let mut task = setup_virtual_microphone_with_config("test_virtual_mic", "/tmp/test_fifo_pipe");
    assert_eq!(
        task.next_action(),
        DeviceAction::RecreatePipe { path: "/tmp/test_fifo_pipe".to_string() }
    );
    task.on_event(DeviceEvent::PipeCreated);
    let expected: Vec<String> = [
        "load-module",
        "module-pipe-source",
        "source_name=test_virtual_mic",
        "file=/tmp/test_fifo_pipe",
        "format=s16le",
        "rate=44100",
        "channels=2",
        "source_properties=device.description=test virtual mic",
    ]
    .iter()
    .map(|s| s.to_string())
    .collect();
    assert_eq!(task.next_action(), DeviceAction::RunControl { args: expected });
    assert_eq!(task.result(), None);
    task.on_event(DeviceEvent::ControlExited { success: true, output: None });
    assert_eq!(task.next_action(), DeviceAction::Finished);
    assert_eq!(task.result(), Some(Ok(VirtualMicResult::Success)));
}

#[test]
fn setup_default_names() {
    let task = setup_virtual_microphone();
    assert_eq!(
        task.next_action(),
        DeviceAction::RecreatePipe { path: DEFAULT_PIPE_PATH.to_string() }
    );
    assert_eq!(DEFAULT_SOURCE_NAME, "rsonance_virtual_microphone");
    assert_eq!(DEFAULT_PIPE_PATH, "/tmp/rsonance_audio_pipe");
}

#[test]
fn setup_pipe_failure_is_an_error() {
    let mut task = setup_virtual_microphone();
    run_setup(&mut task, DeviceEvent::PipeFailed, DeviceEvent::ControlNotStarted);
    assert_eq!(task.result(), Some(Err(DeviceError::PipeCreation)));
}

#[test]
fn setup_control_failure_degrades_to_failed() {
    let mut task = setup_virtual_microphone();
    run_setup(
        &mut task,
        DeviceEvent::PipeCreated,
        DeviceEvent::ControlExited { success: false, output: None },
    );
    assert_eq!(task.result(), Some(Ok(VirtualMicResult::Failed)));

    let mut task = setup_virtual_microphone();
    run_setup(&mut task, DeviceEvent::PipeCreated, DeviceEvent::ControlNotStarted);
    assert_eq!(task.result(), Some(Ok(VirtualMicResult::Failed)));
}

#[test]
fn setup_ignores_events_that_answer_nothing() {
    let mut task = setup_virtual_microphone();
    task.on_event(DeviceEvent::ControlNotStarted);
    assert!(matches!(task.next_action(), DeviceAction::RecreatePipe { .. }));
    task.on_event(DeviceEvent::PipeCreated);
    task.on_event(DeviceEvent::PipeFailed);
    assert!(matches!(task.next_action(), DeviceAction::RunControl { .. }));
}

#[test]
fn load_args_describe_name_with_spaces() {
    let args = pipe_source_load_args("a_b__c", "/p");
    assert_eq!(args[2], "source_name=a_b__c");
    assert_eq!(args[3], "file=/p");
    assert_eq!(args[7], "source_properties=device.description=a b  c");
    assert_eq!(args.len(), 8);
}

#[test]
fn find_returns_first_field_of_matching_line() {
    assert_eq!(find_module_id(LISTING, "rsonance_virtual_microphone"), Some("23".to_string()));
    assert_eq!(find_module_id(LISTING, "other_mic"), Some("12".to_string()));
}

#[test]
fn find_needs_both_marker_and_source_name() {
    // The null sink line names the source but is no pipe source.
    let listing = "24\tmodule-null-sink\tsource_name=mic\n25\tmodule-pipe-source\tsource_name=other\n";
    assert_eq!(find_module_id(listing, "mic"), None);
    assert_eq!(find_module_id(listing, "missing"), None);
    assert_eq!(find_module_id("", "mic"), None);
}

#[test]
fn find_matches_name_as_substring() {
    let listing = "7 module-pipe-source source_name=mic_two\n";
    assert_eq!(find_module_id(listing, "mic"), Some("7".to_string()));
}

#[test]
fn find_handles_leading_blanks_and_crlf() {
    let listing = "junk\r\n   42  module-pipe-source source_name=mic\r\n";
    assert_eq!(find_module_id(listing, "mic"), Some("42".to_string()));
    let last_line = "1 x\n 9\tmodule-pipe-source\tsource_name=mic";
    assert_eq!(find_module_id(last_line, "mic"), Some("9".to_string()));
}

#[test]
fn lookup_reports_errors() {
    let mut lookup = ModuleLookup::new("mic");
    lookup.on_event(DeviceEvent::ControlNotStarted);
    assert_eq!(lookup.result(), Some(Err(DeviceError::ControlUnavailable)));
    assert_eq!(lookup.next_action(), DeviceAction::Finished);

    let mut lookup = ModuleLookup::new("mic");
    lookup.on_event(DeviceEvent::ControlExited { success: true, output: None });
    assert_eq!(lookup.result(), Some(Err(DeviceError::OutputNotText)));
}

#[test]
fn lookup_list_arguments() {
    let lookup = ModuleLookup::new("mic");
    let expected: Vec<String> = ["list", "modules", "short"].iter().map(|s| s.to_string()).collect();
    assert_eq!(lookup.next_action(), DeviceAction::RunControl { args: expected });
}

#[test]
fn cleanup_without_module_returns_false() {
    let mut cleanup = ModuleCleanup::new("absent_mic");
    cleanup.on_event(listed(LISTING));
    assert_eq!(cleanup.result(), Some(Ok(false)));
    assert_eq!(cleanup.next_action(), DeviceAction::Finished);

    let mut cleanup = ModuleCleanup::new("absent_mic");
    cleanup.on_event(DeviceEvent::ControlExited { success: false, output: Some(String::new()) });
    assert_eq!(cleanup.result(), Some(Ok(false)));
}

#[test]
fn cleanup_unloads_found_module() {
    let mut cleanup = cleanup_virtual_microphone();
    cleanup.on_event(listed(LISTING));
    assert_eq!(cleanup.result(), None);
    let expected = vec!["unload-module".to_string(), "23".to_string()];
    assert_eq!(cleanup.next_action(), DeviceAction::RunControl { args: expected });
    cleanup.on_event(DeviceEvent::ControlExited { success: true, output: Some(String::new()) });
    assert_eq!(cleanup.result(), Some(Ok(true)));
}

#[test]
fn cleanup_unload_failure_returns_false() {
    let mut cleanup = cleanup_virtual_microphone();
    cleanup.on_event(listed(LISTING));
    cleanup.on_event(DeviceEvent::ControlExited { success: false, output: Some(String::new()) });
    assert_eq!(cleanup.result(), Some(Ok(false)));
}

#[test]
fn cleanup_errors() {
    let mut cleanup = cleanup_virtual_microphone();
    cleanup.on_event(DeviceEvent::ControlExited { success: true, output: None });
    assert_eq!(cleanup.result(), Some(Err(DeviceError::OutputNotText)));

    let mut cleanup = cleanup_virtual_microphone();
    cleanup.on_event(listed(LISTING));
    cleanup.on_event(DeviceEvent::ControlNotStarted);
    assert_eq!(cleanup.result(), Some(Err(DeviceError::ControlUnavailable)));
}

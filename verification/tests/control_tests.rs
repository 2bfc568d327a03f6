use bacnet_udp_adapter::control::check_end_loop;
use bacnet_udp_adapter::control::dispatch_command;
use bacnet_udp_adapter::control::loop_step;
use bacnet_udp_adapter::control::read_property_multiple;
use bacnet_udp_adapter::control::who_is;
use bacnet_udp_adapter::control::Command;
use bacnet_udp_adapter::control::LoopState;
use bacnet_udp_adapter::control::ObjectType;
use bacnet_udp_adapter::control::PropertyIdentifier;
use bacnet_udp_adapter::control::WhoIsRequest;
use bacnet_udp_adapter::invoke::InvokeIdRegistry;

#[test]
fn quit_line_terminates_the_loop() {
    let line = b"q\r\n".to_vec();
    assert!(check_end_loop(&line));
    let (state, command) = loop_step(LoopState::Running, Some(&line));
    assert_eq!(state, LoopState::Terminating);
    assert_eq!(command, Some(Command::Quit));

    let upper = b"Q\r\n".to_vec();
    assert!(check_end_loop(&upper));
    let (state, _) = loop_step(LoopState::Running, Some(&upper));
    assert_eq!(state, LoopState::Terminating);
}

#[test]
fn working_commands_keep_the_loop_running() {
    for line in [b"w\r\n".to_vec(), b"W\r\n".to_vec()] {
        assert!(!check_end_loop(&line));
        let (state, command) = loop_step(LoopState::Running, Some(&line));
        assert_eq!(state, LoopState::Running);
        assert_eq!(command, Some(Command::WhoIs));
    }
    for line in [b"r\r\n".to_vec(), b"R\r\n".to_vec()] {
        assert!(!check_end_loop(&line));
        let (state, command) = loop_step(LoopState::Running, Some(&line));
        assert_eq!(state, LoopState::Running);
        assert_eq!(command, Some(Command::ReadPropertyMultiple));
    }
}

#[test]
fn unknown_input_echoes_usage() {
    for line in [b"x\r\n".to_vec(), b"qq\r\n".to_vec(), b"q\n".to_vec(), Vec::new()] {
        assert!(!check_end_loop(&line));
        assert_eq!(dispatch_command(&line), Command::Usage);
        let (state, command) = loop_step(LoopState::Running, Some(&line));
        assert_eq!(state, LoopState::Running);
        assert_eq!(command, Some(Command::Usage));
    }
}

#[test]
fn no_input_is_not_an_error() {
    let (state, command) = loop_step(LoopState::Running, None);
    assert_eq!(state, LoopState::Running);
    assert_eq!(command, None);
}

#[test]
fn terminating_is_final() {
    let line = b"w\r\n".to_vec();
    let (state, command) = loop_step(LoopState::Terminating, Some(&line));
    assert_eq!(state, LoopState::Terminating);
    assert_eq!(command, None);
    let (state, command) = loop_step(LoopState::Terminating, None);
    assert_eq!(state, LoopState::Terminating);
    assert_eq!(command, None);
}

#[test]
fn who_is_round_is_the_expected_sequence() {
    let round = who_is();
    assert_eq!(
        round,
        vec![
            WhoIsRequest { has_limits: false, low_limit: 0, high_limit: 0, destination_network: 0 },
            WhoIsRequest {
                has_limits: true,
                low_limit: 389000,
                high_limit: 389999,
                destination_network: 0,
            },
            WhoIsRequest {
                has_limits: false,
                low_limit: 0,
                high_limit: 0,
                destination_network: 15,
            },
            WhoIsRequest {
                has_limits: false,
                low_limit: 0,
                high_limit: 0,
                destination_network: 65535,
            },
        ]
    );
}

#[test]
fn read_property_round_tags_and_advances() {
    let mut registry = InvokeIdRegistry::new();
    let request = read_property_multiple(&mut registry);
    assert_eq!(request.invoke_id, 0);
    assert_eq!(request.builds.len(), 5);
    assert_eq!(request.builds[0].object_type, ObjectType::AnalogInput);
    assert_eq!(request.builds[0].instance, 0);
    assert_eq!(request.builds[0].property, PropertyIdentifier::ObjectName);
    assert_eq!(request.builds[1].object_type, ObjectType::Device);
    assert_eq!(request.builds[1].instance, 389001);
    assert_eq!(request.builds[1].property, PropertyIdentifier::ObjectName);
    assert_eq!(request.builds[2].object_type, ObjectType::CharacterstringValue);
    assert_eq!(request.builds[2].instance, 40);
    assert_eq!(request.builds[2].property, PropertyIdentifier::ObjectName);
    assert_eq!(request.builds[3].object_type, ObjectType::AnalogInput);
    assert_eq!(request.builds[3].instance, 0);
    assert_eq!(request.builds[3].property, PropertyIdentifier::PresentValue);
    assert_eq!(request.builds[4].object_type, ObjectType::CharacterstringValue);
    assert_eq!(request.builds[4].instance, 40);
    assert_eq!(request.builds[4].property, PropertyIdentifier::PresentValue);

    let second = read_property_multiple(&mut registry);
    assert_eq!(second.invoke_id, 1);
}

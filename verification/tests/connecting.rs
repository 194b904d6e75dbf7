use psu_port::connector::{
    connect, ConnectError, OpenRequest, Progress, BAUD_RATE, NO_DEVICE_DESCRIPTION, TIMEOUT_S,
};
use psu_port::descriptor::{Interface, PortDescriptor};

fn adapter(name: &str) -> PortDescriptor {
    PortDescriptor {
        port_name: name.to_string(),
        interface: Interface::Usb {
            manufacturer: Some("wch.cn".to_string()),
            product: Some("USB Serial CH340".to_string()),
        },
    }
}

fn stranger(name: &str) -> PortDescriptor {
    PortDescriptor {
        port_name: name.to_string(),
        interface: Interface::Usb {
            manufacturer: Some("FTDI".to_string()),
            product: Some("FT232R".to_string()),
        },
    }
}

fn onboard(name: &str) -> PortDescriptor {
    PortDescriptor { port_name: name.to_string(), interface: Interface::Pci }
}

/// A port that a test double "opened": the name it was opened under.
#[derive(Debug, Clone, PartialEq, Eq)]
struct Channel(String);

/// Runs a session to its end against a double that opens exactly the ports
/// named in `openable`, and records every request it was given.
fn settle(
    enumeration: Result<Vec<PortDescriptor>, String>,
    openable: &[&str],
) -> (Result<Channel, ConnectError<String>>, Vec<OpenRequest>) {
    let mut requests = Vec::new();
    let mut progress: Progress<Channel, String> = connect(enumeration);
    loop {
        match progress {
            Progress::Attempt(connector, request) => {
                let outcome = if openable.contains(&request.port_name.as_str()) {
                    Ok(Channel(request.port_name.clone()))
                } else {
                    Err(format!("{} is busy", request.port_name))
                };
                requests.push(request);
                progress = connector.resume(outcome);
            }
            Progress::Connected(channel) => return (Ok(channel), requests),
            Progress::Failed(error) => return (Err(error), requests),
        }
    }
}

fn names(requests: &[OpenRequest]) -> Vec<String> {
    requests.iter().map(|request| request.port_name.clone()).collect()
}

#[test]
fn the_fixed_parameters_are_9600_baud_and_one_second() {
    assert_eq!(BAUD_RATE, 9600);
    assert_eq!(TIMEOUT_S, 1);
    assert_eq!(NO_DEVICE_DESCRIPTION, "Cannot find power supply");
}

#[test]
fn failed_listing_ends_the_session_with_its_cause() {
    let (result, requests) = settle(Err("permission denied".to_string()), &["/dev/ttyUSB0"]);
    assert_eq!(result, Err(ConnectError::EnumerationFailed("permission denied".to_string())));
    assert!(requests.is_empty());
}

#[test]
fn failed_listing_is_not_a_missing_device() {
    let (result, _) = settle(Err("driver error".to_string()), &[]);
    assert_ne!(result, Err(ConnectError::NoDeviceFound));
    assert_ne!(
        ConnectError::EnumerationFailed(String::new()),
        ConnectError::<String>::NoDeviceFound
    );
}

#[test]
fn empty_list_finds_no_device() {
    let (result, requests) = settle(Ok(Vec::new()), &["/dev/ttyUSB0"]);
    assert_eq!(result, Err(ConnectError::NoDeviceFound));
    assert!(requests.is_empty());
}

#[test]
fn list_without_candidates_finds_no_device_and_opens_nothing() {
    let ports = vec![onboard("/dev/ttyS0"), stranger("/dev/ttyUSB0")];
    let (result, requests) = settle(Ok(ports), &["/dev/ttyS0", "/dev/ttyUSB0"]);
    assert_eq!(result, Err(ConnectError::NoDeviceFound));
    assert!(requests.is_empty());
}

#[test]
fn single_candidate_that_opens_is_returned() {
    let ports = vec![onboard("/dev/ttyS0"), adapter("/dev/ttyUSB0")];
    let (result, requests) = settle(Ok(ports), &["/dev/ttyUSB0"]);
    assert_eq!(result, Ok(Channel("/dev/ttyUSB0".to_string())));
    assert_eq!(names(&requests), vec!["/dev/ttyUSB0"]);
}

#[test]
fn every_request_carries_the_fixed_parameters() {
    let ports = vec![adapter("/dev/ttyUSB0"), adapter("/dev/ttyUSB1")];
    let (_, requests) = settle(Ok(ports), &[]);
    assert_eq!(
        requests,
        vec![
            OpenRequest {
                port_name: "/dev/ttyUSB0".to_string(),
                baud_rate: 9600,
                timeout_secs: 1
            },
            OpenRequest {
                port_name: "/dev/ttyUSB1".to_string(),
                baud_rate: 9600,
                timeout_secs: 1
            },
        ]
    );
}

#[test]
fn first_candidate_that_opens_wins_and_ends_the_attempts() {
    let ports = vec![
        adapter("/dev/ttyUSB0"),
        stranger("/dev/ttyUSB1"),
        adapter("/dev/ttyUSB2"),
        adapter("/dev/ttyUSB3"),
        adapter("/dev/ttyUSB4"),
    ];
    let (result, requests) = settle(Ok(ports), &["/dev/ttyUSB3"]);
    assert_eq!(result, Ok(Channel("/dev/ttyUSB3".to_string())));
    assert_eq!(names(&requests), vec!["/dev/ttyUSB0", "/dev/ttyUSB2", "/dev/ttyUSB3"]);
}

#[test]
fn each_position_of_the_opening_candidate_takes_that_many_attempts() {
    let all = ["/dev/ttyUSB0", "/dev/ttyUSB1", "/dev/ttyUSB2", "/dev/ttyUSB3"];
    for (index, name) in all.iter().enumerate() {
        let ports = all.iter().map(|port| adapter(port)).collect();
        let (result, requests) = settle(Ok(ports), &[name]);
        assert_eq!(result, Ok(Channel(name.to_string())));
        assert_eq!(requests.len(), index + 1);
        assert_eq!(names(&requests), all[..index + 1].to_vec());
    }
}

#[test]
fn of_two_candidates_that_open_the_earlier_wins() {
    let ports = vec![adapter("/dev/ttyUSB1"), adapter("/dev/ttyUSB0")];
    let (result, requests) = settle(Ok(ports), &["/dev/ttyUSB0", "/dev/ttyUSB1"]);
    assert_eq!(result, Ok(Channel("/dev/ttyUSB1".to_string())));
    assert_eq!(names(&requests), vec!["/dev/ttyUSB1"]);
}

#[test]
fn candidates_that_all_fail_find_no_device() {
    let ports = vec![adapter("/dev/ttyUSB0"), onboard("/dev/ttyS0"), adapter("/dev/ttyUSB1")];
    let (result, requests) = settle(Ok(ports), &["/dev/ttyS0"]);
    assert_eq!(result, Err(ConnectError::NoDeviceFound));
    assert_eq!(names(&requests), vec!["/dev/ttyUSB0", "/dev/ttyUSB1"]);
}

#[test]
fn start_of_a_session_never_reports_a_connection() {
    let progress: Progress<Channel, String> = connect(Ok(vec![adapter("/dev/ttyUSB0")]));
    assert!(matches!(progress, Progress::Attempt(..)));
    let progress: Progress<Channel, String> = connect(Ok(Vec::new()));
    assert!(matches!(progress, Progress::Failed(ConnectError::NoDeviceFound)));
}

#[test]
fn opened_port_is_handed_back_as_it_came() {
    let progress: Progress<Vec<u8>, String> = connect(Ok(vec![adapter("/dev/ttyUSB0")]));
    let Progress::Attempt(connector, _) = progress else {
        panic!("an attempt was expected");
    };
    let next: Progress<Vec<u8>, String> = connector.resume(Ok::<_, String>(vec![7, 8, 9]));
    assert!(matches!(next, Progress::Connected(channel) if channel == vec![7, 8, 9]));
}

#[test]
fn two_sessions_on_one_list_do_not_depend_on_each_other() {
    let ports = vec![onboard("/dev/ttyS0"), adapter("/dev/ttyUSB0")];
    let (first, first_requests) = settle(Ok(ports.clone()), &["/dev/ttyUSB0"]);
    let (second, second_requests) = settle(Ok(ports), &["/dev/ttyUSB0"]);
    assert_eq!(first, Ok(Channel("/dev/ttyUSB0".to_string())));
    assert_eq!(second, first);
    assert_eq!(first_requests.len(), 1);
    assert_eq!(second_requests, first_requests);
}

#[test]
fn session_after_a_failed_one_starts_afresh() {
    let ports = vec![adapter("/dev/ttyUSB0"), adapter("/dev/ttyUSB1")];
    let (first, _) = settle(Ok(ports.clone()), &[]);
    assert_eq!(first, Err(ConnectError::NoDeviceFound));
    let (second, requests) = settle(Ok(ports), &["/dev/ttyUSB0"]);
    assert_eq!(second, Ok(Channel("/dev/ttyUSB0".to_string())));
    assert_eq!(names(&requests), vec!["/dev/ttyUSB0"]);
}

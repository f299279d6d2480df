use tedge_core::start_watchdog;
use tedge_core::ConfigNotSet;
use tedge_core::Event;
use tedge_core::Execute;
use tedge_core::FileEvent;
use tedge_core::Journal;
use tedge_core::LinkError;
use tedge_core::OperationEvent;
use tedge_core::OptionalConfig;
use tedge_core::Pkcs11UriError;
use tedge_core::RuntimeError;
use tedge_core::ScriptActor;
use tedge_core::WatchdogError;
use tedge_core::WatcherConfig;

#[test]
fn journal_keeps_the_last_event_per_request() {
    let mut journal = Journal::new();
    journal
        .log(Event::schedule(
            12345,
            "op#1",
            "c8y_remote_access",
            "/usr/bin/c8y_remote_access",
        ))
        .expect("an updated journal");

    let event = journal
        .get("op#1")
        .expect("no database error")
        .expect("the freshly added event");
    assert_eq!(event.time, 12345);
    assert_eq!(&event.id, "op#1");
    if let OperationEvent::Schedule(request) = &event.event {
        assert_eq!(&request.operation, "c8y_remote_access");
        assert_eq!(&request.command, "/usr/bin/c8y_remote_access");
        assert_eq!(request.args, Vec::<String>::new());
        assert_eq!(&request.user, "nobody");
    } else {
        panic!("a schedule event was expected");
    }

    journal
        .log(Event::schedule(200, "op#1", "other", "/bin/other"))
        .unwrap();
    journal
        .log(Event::schedule(300, "op#2", "second", "/bin/second"))
        .unwrap();
    assert_eq!(journal.get("op#1").unwrap().unwrap().time, 200);
    assert_eq!(journal.get("op#2").unwrap().unwrap().time, 300);
    assert!(journal.get("op#3").unwrap().is_none());
}

#[test]
fn optional_config_remembers_its_key() {
    let set = OptionalConfig::Present { value: 8883u16, key: "mqtt.port" };
    let unset: OptionalConfig<u16> = OptionalConfig::Empty("mqtt.port");

    assert_eq!(set.or_none(), Some(&8883));
    assert_eq!(unset.or_none(), None);
    assert_eq!(set.or_err(), Ok(&8883));
    let err = unset.or_err().unwrap_err();
    assert_eq!(err.key, "mqtt.port");
    assert!(err.message().contains("A value for 'mqtt.port' is missing"));
    assert!(err.message().contains("tedge config set mqtt.port"));

    assert_eq!(Option::from(set), Some(8883));
    assert_eq!(Option::<u16>::from(unset), None);
}

#[test]
fn error_values_describe_themselves() {
    assert_eq!(
        RuntimeError::RuntimePanic.message(),
        "The runtime panicked"
    );
    assert_eq!(
        RuntimeError::RuntimeCancellation.message(),
        "The runtime was cancelled"
    );
    let link = LinkError::MissingPeer { role: "mqtt".to_string() };
    assert_eq!(link.message(), "Missing peer: mqtt");
    assert_eq!(
        Pkcs11UriError::MissingScheme.message(),
        "missing PKCS #11 URI scheme"
    );
}

#[test]
fn the_watchdog_is_unavailable_here() {
    let err = start_watchdog().unwrap_err();
    assert_eq!(err, WatchdogError::WatchdogNotAvailable);
    assert_eq!(
        err.message(),
        "The watchdog is not available on this platform"
    );
}

#[test]
fn script_requests_carry_command_and_arguments() {
    let actor = ScriptActor;
    assert_eq!(actor.name(), "Script");
    let request = Execute::new("echo".to_string(), vec!["A message".to_string()]);
    assert_eq!(request.command, "echo");
    assert_eq!(request.args, vec!["A message".to_string()]);
}

#[test]
fn file_events_carry_their_paths() {
    let config = WatcherConfig { directory: "/etc/tedge".to_string() };
    assert_eq!(config.directory, "/etc/tedge");
    let event = FileEvent::FileCreated("/etc/tedge/c8y.toml".to_string());
    assert_eq!(
        event,
        FileEvent::FileCreated("/etc/tedge/c8y.toml".to_string())
    );
    assert_ne!(
        event,
        FileEvent::FileDeleted("/etc/tedge/c8y.toml".to_string())
    );
}

#[test]
fn config_not_set_keeps_the_key() {
    let err = ConfigNotSet { key: "c8y.url" };
    assert!(err.message().contains("c8y.url"));
}

#[test]
fn lib_it_works() {
    let mut journal = Journal::new();
    journal
        .log(Event::schedule(
            12345,
            "op#1",
            "c8y_remote_access",
            "/usr/bin/c8y_remote_access",
        ))
        .expect("an updated journal");

    let event = journal
        .get("op#1")
        .expect("no database error")
        .expect("the freshly added event");
    assert_eq!(event.time, 12345);
    assert_eq!(&event.id, "op#1");
    if let OperationEvent::Schedule(event) = &event.event {
        assert_eq!(&event.operation, "c8y_remote_access");
        assert_eq!(&event.command, "/usr/bin/c8y_remote_access");
    } else {
        panic!("a schedule event was expected");
    }
}

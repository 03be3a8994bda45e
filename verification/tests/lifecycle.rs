use midir::access::Static;
use midir::backend::{Backend, MidiCallback};
use midir::errors::{ConnectErrorKind, SendError};
use midir::ignore::Ignore;
use midir::input::{MidiInput, MidiInputConnection};
use midir::output::{MidiOutput, MidiOutputConnection};
use midir::ports::{MidiInputPort, MidiOutputPort};

/// A backend that records every capability call and can be told to reject
/// writes, standing in for a platform driver.
struct RecBackend {
    opened_inputs: Vec<String>,
    closed_inputs: Vec<String>,
    opened_outputs: Vec<String>,
    closed_outputs: Vec<String>,
    writes: Vec<(String, Vec<u8>)>,
    reject_writes: bool,
}

impl RecBackend {
    fn new() -> RecBackend {
        RecBackend {
            opened_inputs: Vec::new(),
            closed_inputs: Vec::new(),
            opened_outputs: Vec::new(),
            closed_outputs: Vec::new(),
            writes: Vec::new(),
            reject_writes: false,
        }
    }
}

impl Backend for RecBackend {
    fn open_input(&mut self, id: &String) {
        self.opened_inputs.push(id.clone());
    }

    fn close_input(&mut self, id: &String) {
        self.closed_inputs.push(id.clone());
    }

    fn open_output(&mut self, id: &String) {
        self.opened_outputs.push(id.clone());
    }

    fn close_output(&mut self, id: &String) {
        self.closed_outputs.push(id.clone());
    }

    fn write(&mut self, id: &String, message: &Vec<u8>) -> Result<(), String> {
        if self.reject_writes {
            Err("platform rejected the write".to_string())
        } else {
            self.writes.push((id.clone(), message.clone()));
            Ok(())
        }
    }
}

/// A callback that appends every delivered message to the caller's context.
struct Collector;

impl MidiCallback<Vec<(u64, Vec<u8>)>> for Collector {
    fn invoke(&mut self, timestamp_us: u64, message: &Vec<u8>, context: &mut Vec<(u64, Vec<u8>)>) {
        context.push((timestamp_us, message.clone()));
    }
}

struct NullCallback;

impl MidiCallback<()> for NullCallback {
    fn invoke(&mut self, _timestamp_us: u64, _message: &Vec<u8>, _context: &mut ()) {}
}

fn in_port(id: &str, name: Option<&str>) -> MidiInputPort {
    MidiInputPort::new(id.to_string(), name.map(|n| n.to_string()))
}

fn out_port(id: &str, name: Option<&str>) -> MidiOutputPort {
    MidiOutputPort::new(id.to_string(), name.map(|n| n.to_string()))
}

fn ready_registry() -> Static {
    let mut st = Static::new();
    assert!(st.request_midi_access());
    st.access_granted();
    st.refresh_inputs(&vec![in_port("ID-A", Some("A")), in_port("ID-B", Some("B"))]);
    st.refresh_outputs(&vec![out_port("ID-A", Some("A")), out_port("ID-B", Some("B"))]);
    st
}

#[test]
fn test_trait_impls() {
    // make sure that all the structs implement `Send`
    fn is_send<T: Send>() {}
    is_send::<MidiInputPort>();
    is_send::<MidiInput>();
    is_send::<MidiInputConnection<(), NullCallback>>();
    is_send::<MidiOutputPort>();
    is_send::<MidiOutput>();
    is_send::<MidiOutputConnection>();
}

#[test]
fn sessions_construct() {
    assert!(MidiInput::new("client").is_ok());
    assert!(MidiOutput::new("client").is_ok());
}

#[test]
fn input_port_queries() {
    let st = ready_registry();
    let session = MidiInput::new("client").ok().unwrap();
    assert_eq!(session.port_count(&st), 2);
    assert_eq!(session.port_name(&st, 0).unwrap(), "A");
    assert_eq!(session.port_name(&st, 1).unwrap(), "B");
    assert!(session.port_name(&st, 2).is_err());
    let snapshot = session.ports(&st);
    assert_eq!(snapshot.len(), 2);
    assert_eq!(snapshot[0].id, "ID-A");
    assert_eq!(snapshot[1].id, "ID-B");
}

#[test]
fn connect_out_of_range_recovers_session_and_context() {
    let st = ready_registry();
    let mut bk = RecBackend::new();
    let session = MidiInput::new("client").ok().unwrap();
    let context: Vec<(u64, Vec<u8>)> = vec![(9, vec![1, 2, 3])];
    let err = session
        .connect(&st, &mut bk, 5, "conn", Collector, context)
        .err()
        .unwrap();
    assert_eq!(err.kind(), ConnectErrorKind::PortNumberOutOfRange);
    let (recovered, context_back) = err.into_inner();
    // the registry is untouched and the recovered session still queries it
    assert_eq!(recovered.port_count(&st), 2);
    assert_eq!(context_back, vec![(9, vec![1, 2, 3])]);
    // nothing was opened platform-side
    assert!(bk.opened_inputs.is_empty());
}

#[test]
fn scenario_active_sense_gate() {
    // two ports discovered; connecting to index 1 opens "B"
    let st = ready_registry();
    let mut bk = RecBackend::new();
    let mut session = MidiInput::new("client").ok().unwrap();

    // with the active-sense flag unset, [0xF8] is delivered exactly once
    let mut conn = session
        .connect(&st, &mut bk, 1, "conn", Collector, Vec::new())
        .ok()
        .unwrap();
    assert_eq!(bk.opened_inputs, vec!["ID-B".to_string()]);
    assert!(conn.deliver(17, &vec![0xF8]));
    let (session_back, delivered) = conn.close(&mut bk);
    assert_eq!(delivered, vec![(17, vec![0xF8])]);

    // with the flag set, no invocation occurs
    session = session_back;
    session.ignore(Ignore::new(false, false, true));
    let mut conn = session
        .connect(&st, &mut bk, 1, "conn", Collector, Vec::new())
        .ok()
        .unwrap();
    assert!(!conn.deliver(18, &vec![0xF8]));
    let (_, delivered) = conn.close(&mut bk);
    assert_eq!(delivered, Vec::<(u64, Vec<u8>)>::new());
}

#[test]
fn sysex_gate_exactly_once() {
    let st = ready_registry();
    let mut bk = RecBackend::new();

    // flag set: a message starting with the sysex-start byte is never delivered
    let mut session = MidiInput::new("client").ok().unwrap();
    session.ignore(Ignore::new(true, false, false));
    let mut conn = session
        .connect(&st, &mut bk, 0, "conn", Collector, Vec::new())
        .ok()
        .unwrap();
    assert!(!conn.deliver(5, &vec![0xF0, 0x01, 0xF7]));
    // a non-sysex message still passes under the same flag
    assert!(conn.deliver(6, &vec![0x90, 60, 100]));
    let (session_back, delivered) = conn.close(&mut bk);
    assert_eq!(delivered, vec![(6, vec![0x90, 60, 100])]);

    // flag clear: the same sysex message is delivered exactly once
    let mut session = session_back;
    session.ignore(Ignore::none());
    let mut conn = session
        .connect(&st, &mut bk, 0, "conn", Collector, Vec::new())
        .ok()
        .unwrap();
    assert!(conn.deliver(7, &vec![0xF0, 0x01, 0xF7]));
    let (_, delivered) = conn.close(&mut bk);
    assert_eq!(delivered, vec![(7, vec![0xF0, 0x01, 0xF7])]);
}

#[test]
fn connect_close_round_trip() {
    let st = ready_registry();
    let mut bk = RecBackend::new();
    let session = MidiInput::new("client").ok().unwrap();
    let context: Vec<(u64, Vec<u8>)> = vec![(1, vec![0x90])];
    let conn = session
        .connect(&st, &mut bk, 0, "conn", Collector, context.clone())
        .ok()
        .unwrap();
    let (_session, context_back) = conn.close(&mut bk);
    // zero deliveries: the context comes back equal to what went in
    assert_eq!(context_back, context);
    // the sink was unregistered platform-side before close returned
    assert_eq!(bk.closed_inputs, vec!["ID-A".to_string()]);
}

#[test]
fn close_carries_filter_forward() {
    let st = ready_registry();
    let mut bk = RecBackend::new();
    let mut session = MidiInput::new("client").ok().unwrap();
    session.ignore(Ignore::new(false, false, true));
    let conn = session
        .connect(&st, &mut bk, 0, "conn", Collector, Vec::new())
        .ok()
        .unwrap();
    let (session_back, _) = conn.close(&mut bk);
    // the fresh unconnected session still suppresses active-sense messages
    let mut conn = session_back
        .connect(&st, &mut bk, 0, "conn", Collector, Vec::new())
        .ok()
        .unwrap();
    assert!(!conn.deliver(3, &vec![0xF8]));
    let (_, delivered) = conn.close(&mut bk);
    assert!(delivered.is_empty());
}

#[test]
fn context_reflects_all_deliveries() {
    let st = ready_registry();
    let mut bk = RecBackend::new();
    let session = MidiInput::new("client").ok().unwrap();
    let mut conn = session
        .connect(&st, &mut bk, 0, "conn", Collector, Vec::new())
        .ok()
        .unwrap();
    assert!(conn.deliver(10, &vec![0x90, 60, 100]));
    assert!(conn.deliver(11, &vec![0x80, 60, 0]));
    let (_, delivered) = conn.close(&mut bk);
    assert_eq!(delivered, vec![(10, vec![0x90, 60, 100]), (11, vec![0x80, 60, 0])]);
}

#[test]
fn output_port_queries() {
    let st = ready_registry();
    let session = MidiOutput::new("client").ok().unwrap();
    assert_eq!(session.port_count(&st), 2);
    assert_eq!(session.port_name(&st, 1).unwrap(), "B");
    assert!(session.port_name(&st, 2).is_err());
    let snapshot = session.ports(&st);
    assert_eq!(snapshot.len(), 2);
    assert_eq!(snapshot[1].id, "ID-B");
}

#[test]
fn output_connect_out_of_range() {
    let st = ready_registry();
    let mut bk = RecBackend::new();
    let session = MidiOutput::new("client").ok().unwrap();
    let err = session.connect(&st, &mut bk, 2, "conn").err().unwrap();
    assert_eq!(err.kind(), ConnectErrorKind::PortNumberOutOfRange);
    let recovered = err.into_inner();
    assert_eq!(recovered.port_count(&st), 2);
    assert!(bk.opened_outputs.is_empty());
}

#[test]
fn send_forwards_verbatim() {
    let st = ready_registry();
    let mut bk = RecBackend::new();
    let session = MidiOutput::new("client").ok().unwrap();
    let mut conn = session.connect(&st, &mut bk, 1, "conn").ok().unwrap();
    assert_eq!(bk.opened_outputs, vec!["ID-B".to_string()]);
    assert!(conn.send(&mut bk, &vec![0x90, 60, 100]).is_ok());
    assert!(conn.send(&mut bk, &vec![0x80, 60, 0]).is_ok());
    assert_eq!(
        bk.writes,
        vec![
            ("ID-B".to_string(), vec![0x90, 60, 100]),
            ("ID-B".to_string(), vec![0x80, 60, 0]),
        ]
    );
    let _session = conn.close(&mut bk);
    assert_eq!(bk.closed_outputs, vec!["ID-B".to_string()]);
}

#[test]
fn send_surfaces_backend_rejection() {
    let st = ready_registry();
    let mut bk = RecBackend::new();
    bk.reject_writes = true;
    let session = MidiOutput::new("client").ok().unwrap();
    let mut conn = session.connect(&st, &mut bk, 0, "conn").ok().unwrap();
    match conn.send(&mut bk, &vec![0xF8]) {
        Err(SendError::Other(reason)) => assert_eq!(reason, "platform rejected the write"),
        Ok(()) => panic!("a rejected write must surface an error"),
    }
    assert!(bk.writes.is_empty());
}

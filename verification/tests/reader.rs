use serial_session::reader::{
    Notification, ReadAttempt, ReadOutcome, Reader, DATA_EVENT, ERROR_EVENT, READ_BUFFER_SIZE,
};

fn attempt(bytes: &[u8], outcome: ReadOutcome) -> ReadAttempt {
    let mut buffer = vec![0u8; 16];
    buffer[..bytes.len()].copy_from_slice(bytes);
    ReadAttempt { buffer, outcome }
}

#[test]
fn buffer_holds_four_kibibytes() {
    assert_eq!(READ_BUFFER_SIZE, 4096);
}

#[test]
fn new_reader_runs() {
    assert!(Reader::new().is_running());
}

#[test]
fn read_bytes_become_one_chunk() {
    let mut reader = Reader::new();
    let buffer = [0xAA, 0xBB, 0xCC, 0x00, 0x00];
    let note = reader.on_read(&buffer, ReadOutcome::Read(3));
    assert_eq!(note, Some(Notification::Data(vec![0xAA, 0xBB, 0xCC])));
    assert!(reader.is_running());
}

#[test]
fn chunk_is_never_the_whole_buffer_unless_filled() {
    let mut reader = Reader::new();
    let mut buffer = [0x55u8; READ_BUFFER_SIZE];
    buffer[0] = 0x01;
    assert_eq!(reader.on_read(&buffer, ReadOutcome::Read(1)), Some(Notification::Data(vec![0x01])));
    assert_eq!(
        reader.on_read(&buffer, ReadOutcome::Read(READ_BUFFER_SIZE)),
        Some(Notification::Data(buffer.to_vec()))
    );
}

#[test]
fn empty_read_sends_nothing_and_goes_on() {
    let mut reader = Reader::new();
    let buffer = [0x11u8; 8];
    assert_eq!(reader.on_read(&buffer, ReadOutcome::Read(0)), None);
    assert!(reader.is_running());
    assert_eq!(reader.on_read(&[], ReadOutcome::Read(0)), None);
    assert!(reader.is_running());
}

#[test]
fn timeout_sends_nothing_and_goes_on() {
    let mut reader = Reader::new();
    let buffer = [0x11u8; 8];
    for _ in 0..5 {
        assert_eq!(reader.on_read(&buffer, ReadOutcome::TimedOut), None);
        assert!(reader.is_running());
    }
    assert_eq!(reader.on_read(&buffer, ReadOutcome::Read(2)), Some(Notification::Data(vec![0x11, 0x11])));
}

#[test]
fn failure_sends_one_error_and_ends_the_reader() {
    let mut reader = Reader::new();
    let buffer = [0x11u8; 8];
    let note = reader.on_read(&buffer, ReadOutcome::Failed("broken pipe".to_string()));
    assert_eq!(note, Some(Notification::Error("broken pipe".to_string())));
    assert!(!reader.is_running());
}

#[test]
fn ended_reader_sends_nothing_more() {
    let mut reader = Reader::new();
    let buffer = [0x11u8; 8];
    assert!(reader.on_read(&buffer, ReadOutcome::Failed("gone".to_string())).is_some());
    assert_eq!(reader.on_read(&buffer, ReadOutcome::Read(4)), None);
    assert_eq!(reader.on_read(&buffer, ReadOutcome::TimedOut), None);
    assert_eq!(reader.on_read(&buffer, ReadOutcome::Failed("again".to_string())), None);
    assert!(!reader.is_running());
}

#[test]
fn disconnection_gives_one_error_and_no_data_after_it() {
    let trace = vec![
        attempt(&[1, 2], ReadOutcome::Read(2)),
        attempt(&[], ReadOutcome::TimedOut),
        attempt(&[3], ReadOutcome::Read(1)),
        attempt(&[], ReadOutcome::Failed("device disconnected".to_string())),
        attempt(&[4, 5, 6], ReadOutcome::Read(3)),
        attempt(&[], ReadOutcome::Failed("still disconnected".to_string())),
        attempt(&[7], ReadOutcome::Read(1)),
    ];
    let mut reader = Reader::new();
    let notes = reader.replay(&trace);
    assert_eq!(
        notes,
        vec![
            Notification::Data(vec![1, 2]),
            Notification::Data(vec![3]),
            Notification::Error("device disconnected".to_string()),
        ]
    );
    assert!(!reader.is_running());
    let errors = notes.iter().filter(|note| matches!(note, Notification::Error(_))).count();
    assert_eq!(errors, 1);
    assert_eq!(notes.last().unwrap().event(), ERROR_EVENT);
}

#[test]
fn replay_keeps_the_order_of_the_reads() {
    let trace = vec![
        attempt(&[9], ReadOutcome::Read(1)),
        attempt(&[8, 7], ReadOutcome::Read(2)),
        attempt(&[], ReadOutcome::Read(0)),
        attempt(&[6, 5, 4], ReadOutcome::Read(3)),
    ];
    let mut reader = Reader::new();
    assert_eq!(
        reader.replay(&trace),
        vec![Notification::Data(vec![9]), Notification::Data(vec![8, 7]), Notification::Data(vec![6, 5, 4])]
    );
    assert!(reader.is_running());
}

#[test]
fn replay_of_nothing_sends_nothing() {
    let mut reader = Reader::new();
    assert_eq!(reader.replay(&Vec::new()), Vec::new());
    assert!(reader.is_running());
}

#[test]
fn replay_never_sends_an_empty_chunk() {
    let mut trace = Vec::new();
    for count in 0..6usize {
        trace.push(attempt(&[0xEE; 5][..count], ReadOutcome::Read(count)));
        trace.push(attempt(&[], ReadOutcome::TimedOut));
    }
    let mut reader = Reader::new();
    let notes = reader.replay(&trace);
    assert_eq!(notes.len(), 5);
    for note in &notes {
        match note {
            Notification::Data(bytes) => assert!(!bytes.is_empty()),
            Notification::Error(_) => panic!("no read failed"),
        }
    }
}

#[test]
fn replay_goes_on_where_the_reader_stood() {
    let mut reader = Reader::new();
    let first = reader.replay(&vec![attempt(&[], ReadOutcome::Failed("lost".to_string()))]);
    assert_eq!(first, vec![Notification::Error("lost".to_string())]);
    let second = reader.replay(&vec![attempt(&[1], ReadOutcome::Read(1))]);
    assert_eq!(second, Vec::new());
}

#[test]
fn well_formed_attempts_fit_their_buffer() {
    assert!(ReadAttempt { buffer: vec![0; 4], outcome: ReadOutcome::Read(4) }.is_well_formed());
    assert!(ReadAttempt { buffer: vec![0; 4], outcome: ReadOutcome::Read(0) }.is_well_formed());
    assert!(!ReadAttempt { buffer: vec![0; 4], outcome: ReadOutcome::Read(5) }.is_well_formed());
    assert!(ReadAttempt { buffer: Vec::new(), outcome: ReadOutcome::TimedOut }.is_well_formed());
    assert!(ReadAttempt { buffer: Vec::new(), outcome: ReadOutcome::Failed("x".to_string()) }.is_well_formed());
}

#[test]
fn notifications_are_announced_by_name() {
    assert_eq!(Notification::Data(vec![1]).event(), "serial-data");
    assert_eq!(Notification::Error("x".to_string()).event(), "serial-error");
    assert_eq!(DATA_EVENT, "serial-data");
    assert_eq!(ERROR_EVENT, "serial-error");
}

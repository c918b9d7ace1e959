use tls_detour::{fragmentate, Detour, DetourState, Outcome, Reply, WriteStep};

/// A sink that answers each write with the next outcome of a script, and
/// takes every write whole once the script is over. It keeps what it took.
struct Sink {
    script: Vec<Outcome<&'static str>>,
    offered: Vec<Vec<u8>>,
    taken: Vec<Vec<u8>>,
}

impl Sink {
    fn ready() -> Sink {
        Sink::scripted(Vec::new())
    }

    fn scripted(mut script: Vec<Outcome<&'static str>>) -> Sink {
        script.reverse();
        Sink { script, offered: Vec::new(), taken: Vec::new() }
    }

    fn write(&mut self, buf: &[u8]) -> Outcome<&'static str> {
        self.offered.push(buf.to_vec());
        let outcome = self.script.pop().unwrap_or(Outcome::Completed(buf.len()));
        if let Outcome::Completed(n) = outcome {
            self.taken.push(buf[..n].to_vec());
        }
        outcome
    }
}

/// One call of the write operation, as the caller of the wrapper sees it.
fn write(detour: &mut Detour<Sink>, buf: &[u8]) -> Reply<&'static str> {
    let outcome = match detour.on_write(buf) {
        WriteStep::Suspend => return Reply::Blocked,
        WriteStep::Passthrough => detour.get_mut().write(buf),
        WriteStep::Fragment(bytes) => detour.get_mut().write(&bytes),
    };
    assert!(detour.accepts(&outcome));
    detour.on_outcome(outcome)
}

/// A ClientHello record of 300 bytes with a `server_name` extension for
/// "example.com" whose host name begins at offset 95.
fn client_hello_300() -> Vec<u8> {
    let mut hello = vec![0x16, 0x03, 0x01, 0x01, 0x27, 0x01, 0x00, 0x01, 0x23, 0x03, 0x03];
    hello.extend((0..32).map(|i| 0xc0 | i as u8));
    hello.push(32);
    hello.extend((0..32).map(|i| 0x40 | i as u8));
    hello.extend_from_slice(&[0x00, 0x04, 0x13, 0x01, 0x13, 0x02, 0x01, 0x00]);
    hello.extend_from_slice(&[0x00, 0xd6]);
    hello.extend_from_slice(&[0x00, 0x00, 0x00, 0x10, 0x00, 0x0e, 0x00, 0x00, 0x0b]);
    hello.extend_from_slice(b"example.com");
    hello.extend_from_slice(&[0x00, 0x15, 0x00, 0xbe]);
    hello.extend(std::iter::repeat(0).take(0xbe));
    assert_eq!(hello.len(), 300);
    assert_eq!(&hello[95..106], b"example.com");
    hello
}

fn is_whole_record(record: &[u8]) -> bool {
    record.len() >= 5 && usize::from(record[3]) * 256 + usize::from(record[4]) == record.len() - 5
}

fn is_normal(detour: &Detour<Sink>) -> bool {
    matches!(detour.state(), DetourState::Normal)
}

#[test]
fn new_detour_is_normal_and_gives_its_sink_back() {
    let detour = Detour::new(41u32);
    assert!(matches!(detour.state(), DetourState::Normal));
    assert_eq!(*detour.get_ref(), 41);
    assert_eq!(detour.into_inner(), 41);
}

#[test]
fn get_mut_reaches_the_sink() {
    let mut detour = Detour::new(vec![1u8]);
    detour.get_mut().push(2);
    assert_eq!(detour.get_ref(), &vec![1u8, 2]);
    assert!(matches!(detour.state(), DetourState::Normal));
    assert_eq!(detour.into_inner(), vec![1u8, 2]);
}

#[test]
fn client_hello_leaves_as_two_records() {
    let hello = client_hello_300();
    let mut detour = Detour::new(Sink::ready());

    // the first call stores the records and writes nothing
    assert!(matches!(write(&mut detour, &hello), Reply::Blocked));
    assert!(detour.get_ref().offered.is_empty());
    assert!(matches!(detour.state(), DetourState::SendingFirst { .. }));

    assert!(matches!(write(&mut detour, &hello), Reply::Again));
    assert_eq!(detour.get_ref().taken.len(), 1);
    assert!(matches!(detour.state(), DetourState::SendingSecond { written: 100, .. }));

    assert!(matches!(write(&mut detour, &hello), Reply::Done(305)));
    assert!(is_normal(&detour));

    let sink = detour.into_inner();
    assert_eq!(sink.offered.len(), 2);
    assert_eq!(sink.taken.len(), 2);
    let (first, second) = (&sink.taken[0], &sink.taken[1]);
    assert!(is_whole_record(first));
    assert!(is_whole_record(second));
    assert_eq!(&first[..3], &hello[..3]);
    assert_eq!(&second[..3], &hello[..3]);
    assert_eq!(first.len(), 100);
    assert_eq!(second.len(), 205);
    let payload = [&first[5..], &second[5..]].concat();
    assert_eq!(payload.len(), 295);
    assert_eq!(payload, &hello[5..]);
    // the host name is on both sides of the cut
    assert_eq!(&first[95..], b"examp");
    assert_eq!(&second[5..11], b"le.com");
}

#[test]
fn client_hello_records_are_those_of_fragmentate() {
    let hello = client_hello_300();
    let (first, second) = fragmentate(&hello);
    let mut detour = Detour::new(Sink::ready());
    assert!(matches!(detour.on_write(&hello), WriteStep::Suspend));
    match detour.state() {
        DetourState::SendingFirst { first: f, second: s } => {
            assert_eq!(f, &first);
            assert_eq!(s, &second);
        }
        _ => panic!("the records were not stored"),
    }
    match detour.on_write(&hello) {
        WriteStep::Fragment(bytes) => assert_eq!(bytes, first),
        _ => panic!("the first record was not handed out"),
    }
    assert!(matches!(detour.on_outcome(Outcome::<()>::Completed(first.len())), Reply::Again));
    match detour.on_write(&hello) {
        WriteStep::Fragment(bytes) => assert_eq!(bytes, second),
        _ => panic!("the second record was not handed out"),
    }
}

#[test]
fn other_buffers_pass_through() {
    let mut detour = Detour::new(Sink::ready());
    let data = b"GET / HTTP/1.1\r\n\r\n";
    assert!(matches!(write(&mut detour, data), Reply::Done(18)));
    assert!(is_normal(&detour));
    let sink = detour.into_inner();
    assert_eq!(sink.offered, vec![data.to_vec()]);
}

#[test]
fn passthrough_hands_on_what_the_sink_says() {
    let script = vec![Outcome::Completed(3), Outcome::Pending, Outcome::Failed("reset")];
    let mut detour = Detour::new(Sink::scripted(script));
    let data = [0x17, 0x03, 0x03, 0x00, 0x02, 0x01, 0x02];
    assert!(matches!(write(&mut detour, &data), Reply::Done(3)));
    assert!(matches!(write(&mut detour, &data), Reply::Blocked));
    assert!(matches!(write(&mut detour, &data), Reply::Failed("reset")));
    assert!(is_normal(&detour));
    let sink = detour.into_inner();
    assert_eq!(sink.offered, vec![data.to_vec(); 3]);
}

#[test]
fn short_and_empty_buffers_pass_through() {
    let mut detour = Detour::new(Sink::ready());
    assert!(matches!(detour.on_write(&[]), WriteStep::Passthrough));
    assert!(matches!(detour.on_write(&[0x16, 0x03, 0x01, 0x00, 0x00]), WriteStep::Passthrough));
    assert!(matches!(detour.on_write(&[0x16, 0x03, 0x01, 0x00, 0x01, 0x02]), WriteStep::Passthrough));
    assert!(is_normal(&detour));
}

#[test]
fn every_write_is_looked_at_anew() {
    let hello = client_hello_300();
    let mut detour = Detour::new(Sink::ready());
    assert!(matches!(write(&mut detour, b"one"), Reply::Done(3)));
    assert!(matches!(write(&mut detour, &hello), Reply::Blocked));
    assert!(matches!(write(&mut detour, &hello), Reply::Again));
    assert!(matches!(write(&mut detour, &hello), Reply::Done(305)));
    assert!(matches!(write(&mut detour, b"two"), Reply::Done(3)));
    // a second ClientHello is cut as the first was
    assert!(matches!(write(&mut detour, &hello), Reply::Blocked));
    assert!(matches!(write(&mut detour, &hello), Reply::Again));
    assert!(matches!(write(&mut detour, &hello), Reply::Done(305)));
    let sink = detour.into_inner();
    assert_eq!(sink.taken.len(), 6);
    assert_eq!(sink.taken[1], sink.taken[4]);
    assert_eq!(sink.taken[2], sink.taken[5]);
}

#[test]
fn first_record_is_offered_again_when_the_sink_is_not_ready() {
    let hello = client_hello_300();
    let (first, second) = fragmentate(&hello);
    let mut detour = Detour::new(Sink::scripted(vec![Outcome::Pending, Outcome::Pending]));

    assert!(matches!(write(&mut detour, &hello), Reply::Blocked));
    assert!(matches!(write(&mut detour, &hello), Reply::Blocked));
    assert!(matches!(detour.state(), DetourState::SendingFirst { .. }));
    assert!(matches!(write(&mut detour, &hello), Reply::Blocked));
    assert!(matches!(detour.state(), DetourState::SendingFirst { .. }));
    assert!(matches!(write(&mut detour, &hello), Reply::Again));
    assert!(matches!(write(&mut detour, &hello), Reply::Done(305)));

    let sink = detour.into_inner();
    assert_eq!(sink.offered, vec![first.clone(), first.clone(), first.clone(), second.clone()]);
    assert_eq!(sink.taken, vec![first, second]);
}

#[test]
fn stored_records_do_not_follow_a_changed_buffer() {
    let hello = client_hello_300();
    let (first, second) = fragmentate(&hello);
    let mut detour = Detour::new(Sink::scripted(vec![Outcome::Pending]));
    assert!(matches!(write(&mut detour, &hello), Reply::Blocked));
    assert!(matches!(write(&mut detour, &hello), Reply::Blocked));

    // another ClientHello, with no server name and of another length
    let mut other = vec![0x16, 0x03, 0x03, 0x00, 0x20, 0x01];
    other.extend_from_slice(&[0x77; 31]);
    assert!(matches!(write(&mut detour, &other), Reply::Again));
    assert!(matches!(write(&mut detour, &other), Reply::Done(305)));
    let sink = detour.into_inner();
    assert_eq!(sink.taken, vec![first, second]);
}

#[test]
fn second_record_is_offered_again_when_the_sink_is_not_ready() {
    let hello = client_hello_300();
    let (first, second) = fragmentate(&hello);
    let script = vec![Outcome::Completed(100), Outcome::Pending];
    let mut detour = Detour::new(Sink::scripted(script));

    assert!(matches!(write(&mut detour, &hello), Reply::Blocked));
    assert!(matches!(write(&mut detour, &hello), Reply::Again));
    assert!(matches!(write(&mut detour, &hello), Reply::Blocked));
    assert!(matches!(detour.state(), DetourState::SendingSecond { written: 100, .. }));
    assert!(matches!(write(&mut detour, &hello), Reply::Done(305)));
    assert!(is_normal(&detour));

    let sink = detour.into_inner();
    assert_eq!(sink.offered, vec![first, second.clone(), second]);
}

#[test]
fn sink_errors_reach_the_caller_and_keep_the_state() {
    let hello = client_hello_300();
    let script = vec![Outcome::Failed("broken pipe"), Outcome::Completed(100), Outcome::Failed("reset")];
    let mut detour = Detour::new(Sink::scripted(script));

    assert!(matches!(write(&mut detour, &hello), Reply::Blocked));
    assert!(matches!(write(&mut detour, &hello), Reply::Failed("broken pipe")));
    assert!(matches!(detour.state(), DetourState::SendingFirst { .. }));
    assert!(matches!(write(&mut detour, &hello), Reply::Again));
    assert!(matches!(write(&mut detour, &hello), Reply::Failed("reset")));
    assert!(matches!(detour.state(), DetourState::SendingSecond { written: 100, .. }));
    assert!(matches!(write(&mut detour, &hello), Reply::Done(305)));
    assert!(is_normal(&detour));
}

#[test]
fn reported_total_adds_what_the_sink_took() {
    let hello = client_hello_300();
    let script = vec![Outcome::Completed(10), Outcome::Completed(7)];
    let mut detour = Detour::new(Sink::scripted(script));
    assert!(matches!(write(&mut detour, &hello), Reply::Blocked));
    assert!(matches!(write(&mut detour, &hello), Reply::Again));
    assert!(matches!(detour.state(), DetourState::SendingSecond { written: 10, .. }));
    assert!(matches!(write(&mut detour, &hello), Reply::Done(17)));
    assert!(is_normal(&detour));
}

#[test]
fn waiting_record_goes_out_whatever_the_buffer() {
    let hello = client_hello_300();
    let (first, second) = fragmentate(&hello);
    let mut detour = Detour::new(Sink::ready());
    assert!(matches!(write(&mut detour, &hello), Reply::Blocked));

    // the buffer is not looked into while a record waits
    match detour.on_write(b"data") {
        WriteStep::Fragment(bytes) => assert_eq!(bytes, first),
        _ => panic!("the first record was not handed out"),
    }
    assert!(matches!(detour.state(), DetourState::SendingFirst { .. }));
    assert!(matches!(write(&mut detour, &[]), Reply::Again));
    assert!(matches!(write(&mut detour, b"data"), Reply::Done(305)));
    assert!(is_normal(&detour));

    // nothing but the two records reached the sink, in order
    let sink = detour.into_inner();
    assert_eq!(sink.offered, vec![first, second]);
}

#[test]
fn passthrough_resumes_once_both_records_are_written() {
    let hello = client_hello_300();
    let mut detour = Detour::new(Sink::ready());
    assert!(matches!(write(&mut detour, &hello), Reply::Blocked));
    assert!(matches!(write(&mut detour, &hello), Reply::Again));
    assert!(matches!(write(&mut detour, &hello), Reply::Done(305)));
    assert_eq!(detour.on_write(b"data"), WriteStep::Passthrough);
    assert_eq!(detour.on_outcome(Outcome::<()>::Completed(4)), Reply::Done(4));
    assert!(is_normal(&detour));
}

#[test]
fn answer_to_a_buffer_that_passed_through_is_handed_on() {
    let mut detour = Detour::new(Sink::ready());
    assert_eq!(detour.on_write(b"data"), WriteStep::Passthrough);
    assert!(detour.accepts(&Outcome::<()>::Completed(usize::MAX)));
    assert!(matches!(detour.on_outcome(Outcome::<()>::Completed(12)), Reply::Done(12)));
    assert!(matches!(detour.on_outcome(Outcome::<()>::Pending), Reply::Blocked));
    assert!(matches!(detour.on_outcome(Outcome::Failed(5u8)), Reply::Failed(5u8)));
    assert!(is_normal(&detour));
}

#[test]
fn accepts_refuses_a_total_that_does_not_fit() {
    let hello = client_hello_300();
    let mut detour = Detour::new(Sink::ready());
    assert!(matches!(detour.on_write(&hello), WriteStep::Suspend));
    assert!(detour.accepts(&Outcome::<()>::Completed(usize::MAX)));
    assert!(matches!(detour.on_outcome(Outcome::<()>::Completed(usize::MAX)), Reply::Again));

    assert!(!detour.accepts(&Outcome::<()>::Completed(1)));
    assert!(!detour.accepts(&Outcome::<()>::Completed(usize::MAX)));
    assert!(detour.accepts(&Outcome::<()>::Completed(0)));
    assert!(detour.accepts(&Outcome::<()>::Pending));
    assert!(detour.accepts(&Outcome::Failed("reset")));
    assert!(matches!(detour.on_outcome(Outcome::<()>::Completed(0)), Reply::Done(usize::MAX)));
    assert!(is_normal(&detour));
}

#[test]
fn largest_total_that_fits_is_reported() {
    let hello = client_hello_300();
    let mut detour = Detour::new(Sink::ready());
    assert!(matches!(detour.on_write(&hello), WriteStep::Suspend));
    assert!(matches!(detour.on_outcome(Outcome::<()>::Completed(usize::MAX - 205)), Reply::Again));
    assert!(detour.accepts(&Outcome::<()>::Completed(205)));
    assert!(!detour.accepts(&Outcome::<()>::Completed(206)));
    assert!(matches!(detour.on_outcome(Outcome::<()>::Completed(205)), Reply::Done(usize::MAX)));
}

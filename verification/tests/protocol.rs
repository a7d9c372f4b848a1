use occult::{extract_one, Arguments, Extractor, Handler, Rejection, State};
use std::cell::{Cell, RefCell};
use std::rc::Rc;

#[derive(Debug, Clone, PartialEq)]
struct Frame(Vec<u8>);

impl From<Vec<u8>> for Frame {
    fn from(vec: Vec<u8>) -> Self {
        Frame(vec)
    }
}

impl From<String> for Frame {
    fn from(string: String) -> Self {
        Frame(string.into_bytes())
    }
}

impl From<&str> for Frame {
    fn from(text: &str) -> Self {
        Frame(text.as_bytes().to_vec())
    }
}

/// A frame decoded as text.
#[derive(Debug, Clone, PartialEq)]
struct Topic(String);

impl<S> Extractor<Frame, S> for Topic {
    type Error = String;

    fn extract(topic: Frame, _: &S) -> Result<Self, Self::Error> {
        let topic = String::from_utf8(topic.0).map_err(|err| err.to_string())?;
        Ok(Topic(topic))
    }
}

// The encoding that goes with the decoding above.
impl From<Topic> for Frame {
    fn from(topic: Topic) -> Self {
        Frame(topic.0.into_bytes())
    }
}

/// The number of bytes of a frame. It empties its own copy of the frame.
#[derive(Debug, Clone, PartialEq)]
struct Length(usize);

impl<S> Extractor<Frame, S> for Length {
    type Error = String;

    fn extract(mut topic: Frame, _: &S) -> Result<Self, Self::Error> {
        let length = topic.0.len();
        topic.0.clear();
        Ok(Length(length))
    }
}

/// The byte of a frame at the position `N`.
#[derive(Debug, Clone, PartialEq)]
struct Byte<const N: usize>(u8);

impl<const N: usize, S> Extractor<Frame, S> for Byte<N> {
    type Error = String;

    fn extract(topic: Frame, _: &S) -> Result<Self, Self::Error> {
        match topic.0.get(N) {
            Some(byte) => Ok(Byte(*byte)),
            None => Err(format!("no byte at {N}")),
        }
    }
}

/// A context that records which extractors ran.
#[derive(Clone)]
struct Journal(Rc<RefCell<Vec<usize>>>);

/// A parameter that writes `N` into the journal, and fails where the first
/// byte of the frame is `N`.
struct Noted<const N: usize>;

impl<const N: usize> Extractor<Frame, Journal> for Noted<N> {
    type Error = String;

    fn extract(topic: Frame, journal: &Journal) -> Result<Self, Self::Error> {
        journal.0.borrow_mut().push(N);
        if topic.0.first().map(|byte| *byte as usize) == Some(N) {
            Err(format!("rejected at {N}"))
        } else {
            Ok(Noted)
        }
    }
}

/// Invokes a handler whose input value is a frame.
fn serve<Args, S>(
    handler: impl Handler<Frame, Args, S, Response = Frame, Error = Rejection>,
    frame: impl Into<Frame>,
    state: S,
) -> Result<Frame, Rejection> {
    handler.invoke(frame, state)
}

#[test]
fn hello_world_from_bytes() {
    let handler = |Topic(topic): Topic| format!("Hello, {topic}!");
    let response = handler.invoke(Frame(b"world".to_vec()), ()).unwrap();
    assert_eq!(response, Frame(b"Hello, world!".to_vec()));
    assert_eq!(response.0.len(), 13);
}

#[test]
fn three_parameters_extract_from_their_own_clones() {
    fn handler(a: Topic, b: Topic, c: Topic) -> String {
        format!("Hello, {} {} {}!", a.0, b.0, c.0)
    }
    assert_eq!(
        handler.invoke("world", ()).unwrap(),
        Frame(b"Hello, world world world!".to_vec())
    );
}

#[test]
fn an_extractor_that_consumes_its_copy_leaves_the_others_theirs() {
    let handler = |before: Topic, length: Length, after: Topic| {
        format!("{}/{}/{}", before.0, length.0, after.0)
    };
    assert_eq!(
        handler.invoke("world", ()).unwrap(),
        Frame(b"world/5/world".to_vec())
    );
}

#[test]
fn state_reaches_the_handler_beside_a_parameter() {
    #[derive(Clone)]
    struct Settings {
        greeting: &'static str,
    }

    let handler = |Topic(topic): Topic, State(settings): State<Settings>| {
        format!("{}, {topic}!", settings.greeting)
    };
    let settings = Settings { greeting: "Good day" };
    assert_eq!(
        handler.invoke("world", settings).unwrap(),
        Frame(b"Good day, world!".to_vec())
    );
}

#[test]
fn state_is_converted_into_what_the_handler_asks_for() {
    #[derive(Clone)]
    struct Application {
        name: String,
        retries: u16,
    }

    #[derive(Clone)]
    struct Retries(u16);

    impl From<Application> for Retries {
        fn from(application: Application) -> Self {
            Retries(application.retries)
        }
    }

    #[derive(Clone)]
    struct Name(String);

    impl From<Application> for Name {
        fn from(application: Application) -> Self {
            Name(application.name)
        }
    }

    let handler = |State(Name(name)): State<Name>, State(Retries(retries)): State<Retries>| {
        format!("{name}:{retries}")
    };
    let application = Application { name: "occult".to_string(), retries: 3 };
    assert_eq!(
        serve(handler, Frame(Vec::new()), application).unwrap(),
        Frame(b"occult:3".to_vec())
    );
}

#[test]
fn state_extraction_ignores_the_input_value() {
    let first: Result<State<u32>, String> = State::extract(Frame(b"one".to_vec()), &7u32);
    let second: Result<State<u32>, String> = State::extract((), &7u32);
    assert_eq!(first.unwrap().0, 7);
    assert_eq!(second.unwrap().0, 7);
}

#[test]
fn invoking_twice_gives_equal_results() {
    let handler = |Topic(topic): Topic, Length(length): Length| format!("{topic} has {length}");
    let first = handler.invoke("world", ()).unwrap();
    let second = handler.invoke("world", ()).unwrap();
    assert_eq!(first, second);
    assert_eq!(first, Frame(b"world has 5".to_vec()));

    let failing = |Byte(byte): Byte<9>| vec![byte];
    let first = failing.invoke("world", ()).unwrap_err();
    let second = failing.invoke("world", ()).unwrap_err();
    assert_eq!(first.reason, second.reason);
}

#[test]
fn success_does_not_depend_on_the_order_of_extraction() {
    let frame = Frame(b"world".to_vec());

    // Extracted one by one, the last parameter first.
    let length: Length = extract_one(&frame, &()).unwrap();
    let byte: Byte<1> = extract_one(&frame, &()).unwrap();
    let topic: Topic = extract_one(&frame, &()).unwrap();

    // Extracted as a whole, in the declared order.
    let whole = <(Topic, Byte<1>, Length)>::extract_all(&frame, &()).unwrap();
    assert_eq!(whole, (topic, byte, length));
    assert_eq!(whole, (Topic("world".to_string()), Byte(b'o'), Length(5)));

    // Declared the other way round, each parameter is still the same.
    let turned = <(Length, Byte<1>, Topic)>::extract_all(&frame, &()).unwrap();
    assert_eq!((turned.2, turned.1, turned.0), whole);
}

#[test]
fn extraction_stops_at_the_first_failure() {
    let called = Rc::new(Cell::new(false));
    let flag = called.clone();
    let handler = move |_: Noted<0>, _: Noted<1>, _: Noted<2>, _: Noted<3>, _: Noted<4>| {
        flag.set(true);
        Vec::<u8>::new()
    };

    let journal = Journal(Rc::new(RefCell::new(Vec::new())));
    let rejection = handler.invoke(vec![2u8], journal.clone()).unwrap_err();
    assert_eq!(rejection.reason, "rejected at 2");
    assert_eq!(*journal.0.borrow(), vec![0, 1, 2]);
    assert!(!called.get());

    // The first parameter fails: no other extractor runs.
    let journal = Journal(Rc::new(RefCell::new(Vec::new())));
    let rejection = handler.invoke(vec![0u8], journal.clone()).unwrap_err();
    assert_eq!(rejection.reason, "rejected at 0");
    assert_eq!(*journal.0.borrow(), vec![0]);
    assert!(!called.get());

    // The last parameter fails: all have run, the handler has not.
    let journal = Journal(Rc::new(RefCell::new(Vec::new())));
    let rejection = handler.invoke(vec![4u8], journal.clone()).unwrap_err();
    assert_eq!(rejection.reason, "rejected at 4");
    assert_eq!(*journal.0.borrow(), vec![0, 1, 2, 3, 4]);
    assert!(!called.get());

    // None fails: all have run in the declared order, then the handler.
    let journal = Journal(Rc::new(RefCell::new(Vec::new())));
    let response: Frame = handler.invoke(vec![9u8], journal.clone()).unwrap();
    assert_eq!(response, Frame(Vec::new()));
    assert_eq!(*journal.0.borrow(), vec![0, 1, 2, 3, 4]);
    assert!(called.get());
}

#[test]
fn of_two_failures_the_first_is_given() {
    let handler = |_: Byte<0>, _: Byte<7>, _: Topic, _: Byte<5>| Vec::<u8>::new();
    let rejection: Rejection = handler.invoke(vec![0xffu8], ()).unwrap_err();
    assert_eq!(rejection.reason, "no byte at 7");
}

#[test]
fn malformed_input_is_rejected_with_the_reason_of_the_extractor() {
    let handler = |Topic(topic): Topic| topic;
    let rejection = handler.invoke(vec![b'a', 0xff], ()).unwrap_err();
    let reason = String::from_utf8(vec![b'a', 0xff]).unwrap_err().to_string();
    assert_eq!(rejection.reason, reason);
    assert_eq!(rejection.describe(), "invalid utf-8 sequence of 1 bytes from index 1");
}

#[test]
fn without_parameters_the_input_and_the_state_do_not_matter() {
    let handler = || "constant".to_string();
    let expected = Frame(b"constant".to_vec());
    assert_eq!(serve(handler, Frame(b"world".to_vec()), ()).unwrap(), expected);
    assert_eq!(serve(handler, Frame(Vec::new()), 17u64).unwrap(), expected);
    assert_eq!(serve(handler, vec![0xffu8, 0xfe], "state").unwrap(), expected);
    assert_eq!(serve(handler, "anything", Some(vec![1, 2, 3])).unwrap(), expected);
}

#[test]
fn the_response_is_the_conversion_of_the_output() {
    let text = |Topic(topic): Topic| topic.to_uppercase();
    assert_eq!(text.invoke("world", ()).unwrap(), Frame::from("WORLD".to_string()));

    let bytes = |Length(length): Length| vec![length as u8; length];
    assert_eq!(bytes.invoke("abc", ()).unwrap(), Frame::from(vec![3u8, 3, 3]));

    let frame = |Topic(topic): Topic| Frame(topic.into_bytes());
    assert_eq!(frame.invoke("same", ()).unwrap(), Frame(b"same".to_vec()));
}

#[test]
fn decoding_and_encoding_give_the_value_back() {
    let echo = |topic: Topic| topic;
    let value = Frame(b"round trip".to_vec());
    assert_eq!(echo.invoke(value.clone(), ()).unwrap(), value);

    // From the domain value: encoded on the way in, decoded for the handler,
    // encoded again on the way out.
    let topic = Topic("round trip".to_string());
    assert_eq!(echo.invoke(topic.clone(), ()).unwrap(), Frame::from(topic));
}

#[test]
fn twelve_parameters() {
    let handler = |a: Byte<0>,
                   b: Byte<1>,
                   c: Byte<2>,
                   d: Byte<3>,
                   e: Byte<4>,
                   f: Byte<5>,
                   g: Byte<6>,
                   h: Byte<7>,
                   i: Byte<8>,
                   j: Byte<9>,
                   k: Byte<10>,
                   l: Byte<11>| {
        vec![l.0, k.0, j.0, i.0, h.0, g.0, f.0, e.0, d.0, c.0, b.0, a.0]
    };
    assert_eq!(
        handler.invoke("abcdefghijkl", ()).unwrap(),
        Frame(b"lkjihgfedcba".to_vec())
    );
    assert_eq!(
        handler.invoke("abcdefghijklmnop", ()).unwrap(),
        Frame(b"lkjihgfedcba".to_vec())
    );
    assert_eq!(handler.invoke("abcdefghijk", ()).unwrap_err().reason, "no byte at 11");
    assert_eq!(handler.invoke("abcde", ()).unwrap_err().reason, "no byte at 5");
    assert_eq!(handler.invoke("", ()).unwrap_err().reason, "no byte at 0");
}

#[test]
fn every_number_of_parameters_up_to_twelve() {
    type B = Byte<0>;
    let frame = || Frame(vec![1u8]);
    let sum = |bytes: &[B]| vec![bytes.iter().map(|byte| byte.0).sum::<u8>()];

    assert_eq!(serve(|| sum(&[]), frame(), ()).unwrap(), Frame(vec![0]));
    assert_eq!((|a: B| sum(&[a])).invoke(frame(), ()).unwrap(), Frame(vec![1]));
    assert_eq!((|a: B, b: B| sum(&[a, b])).invoke(frame(), ()).unwrap(), Frame(vec![2]));
    assert_eq!(
        (|a: B, b: B, c: B| sum(&[a, b, c])).invoke(frame(), ()).unwrap(),
        Frame(vec![3])
    );
    assert_eq!(
        (|a: B, b: B, c: B, d: B| sum(&[a, b, c, d])).invoke(frame(), ()).unwrap(),
        Frame(vec![4])
    );
    assert_eq!(
        (|a: B, b: B, c: B, d: B, e: B| sum(&[a, b, c, d, e])).invoke(frame(), ()).unwrap(),
        Frame(vec![5])
    );
    assert_eq!(
        (|a: B, b: B, c: B, d: B, e: B, f: B| sum(&[a, b, c, d, e, f]))
            .invoke(frame(), ())
            .unwrap(),
        Frame(vec![6])
    );
    assert_eq!(
        (|a: B, b: B, c: B, d: B, e: B, f: B, g: B| sum(&[a, b, c, d, e, f, g]))
            .invoke(frame(), ())
            .unwrap(),
        Frame(vec![7])
    );
    assert_eq!(
        (|a: B, b: B, c: B, d: B, e: B, f: B, g: B, h: B| sum(&[a, b, c, d, e, f, g, h]))
            .invoke(frame(), ())
            .unwrap(),
        Frame(vec![8])
    );
    assert_eq!(
        (|a: B, b: B, c: B, d: B, e: B, f: B, g: B, h: B, i: B| sum(&[
            a, b, c, d, e, f, g, h, i
        ]))
        .invoke(frame(), ())
        .unwrap(),
        Frame(vec![9])
    );
    assert_eq!(
        (|a: B, b: B, c: B, d: B, e: B, f: B, g: B, h: B, i: B, j: B| sum(&[
            a, b, c, d, e, f, g, h, i, j
        ]))
        .invoke(frame(), ())
        .unwrap(),
        Frame(vec![10])
    );
    assert_eq!(
        (|a: B, b: B, c: B, d: B, e: B, f: B, g: B, h: B, i: B, j: B, k: B| sum(&[
            a, b, c, d, e, f, g, h, i, j, k
        ]))
        .invoke(frame(), ())
        .unwrap(),
        Frame(vec![11])
    );
    assert_eq!(
        (|a: B, b: B, c: B, d: B, e: B, f: B, g: B, h: B, i: B, j: B, k: B, l: B| sum(&[
            a, b, c, d, e, f, g, h, i, j, k, l
        ]))
        .invoke(frame(), ())
        .unwrap(),
        Frame(vec![12])
    );
}

#[test]
fn a_handler_serves_many_invocations() {
    let handler = |Topic(topic): Topic, State(count): State<usize>| format!("{topic} {count}");
    for count in 0..5usize {
        assert_eq!(
            handler.invoke("tick", count).unwrap(),
            Frame(format!("tick {count}").into_bytes())
        );
    }
}

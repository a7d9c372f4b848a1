use occult::{attach, extend, extract_one, Arguments, Callable, Extractor, Rejection, State};

/// A number read from decimal digits.
#[derive(Debug, Clone, PartialEq)]
struct Number(u32);

impl<S> Extractor<String, S> for Number {
    type Error = String;

    fn extract(topic: String, _: &S) -> Result<Self, Self::Error> {
        match topic.parse::<u32>() {
            Ok(number) => Ok(Number(number)),
            Err(_) => Err(format!("not a number: {topic}")),
        }
    }
}

/// The first character of a text.
#[derive(Debug, Clone, PartialEq)]
struct Initial(char);

/// Why there is no initial.
#[derive(Debug, PartialEq)]
struct Empty;

impl From<Empty> for Rejection {
    fn from(_: Empty) -> Self {
        Rejection::new("empty".to_string())
    }
}

impl<S> Extractor<String, S> for Initial {
    type Error = Empty;

    fn extract(topic: String, _: &S) -> Result<Self, Self::Error> {
        topic.chars().next().map(Initial).ok_or(Empty)
    }
}

#[test]
fn a_rejection_keeps_its_reason() {
    let rejection = Rejection::new("no such thing".to_string());
    assert_eq!(rejection.reason, "no such thing");
    assert_eq!(rejection.describe(), "no such thing");
    assert_eq!(Rejection::new(String::new()).describe(), "");
}

#[test]
fn a_string_converts_into_a_rejection() {
    let rejection = Rejection::from("malformed".to_string());
    assert_eq!(rejection.describe(), "malformed");
    let rejection: Rejection = "truncated".to_string().into();
    assert_eq!(rejection.reason, "truncated");
}

#[test]
fn a_rejection_can_be_shown_for_debugging() {
    let shown = format!("{:?}", Rejection::new("why".to_string()));
    assert!(shown.contains("why"));
}

#[test]
fn state_hands_over_the_context() {
    let context = "shared".to_string();
    let extracted: State<String> = State::extract(0u8, &context).unwrap();
    assert_eq!(extracted.0, "shared");
    assert_eq!(context, "shared");
}

#[test]
fn state_converts_the_context() {
    let extracted: State<u64> = State::extract((), &7u32).unwrap();
    assert_eq!(extracted.0, 7u64);
    let extracted: State<String> = State::extract((), &'x').unwrap();
    assert_eq!(extracted.0, "x");
}

#[test]
fn one_parameter_is_extracted_from_a_clone() {
    let input = "42".to_string();
    let number: Result<Number, String> = extract_one(&input, &());
    assert_eq!(number, Ok(Number(42)));
    assert_eq!(input, "42");

    let input = "forty-two".to_string();
    let number: Result<Number, String> = extract_one(&input, &());
    assert_eq!(number, Err("not a number: forty-two".to_string()));
}

#[test]
fn attaching_a_value_puts_it_behind_the_others() {
    let outcome: Result<Number, String> = Ok(Number(3));
    let joined = attach((Number(1), Number(2)), outcome).unwrap();
    assert_eq!(joined, ((Number(1), Number(2)), Number(3)));

    let outcome: Result<Initial, Empty> = Ok(Initial('a'));
    assert_eq!(attach((), outcome).unwrap(), ((), Initial('a')));
}

#[test]
fn attaching_an_error_gives_its_rejection() {
    let outcome: Result<Number, String> = Err("too large".to_string());
    let rejection = attach((Number(1),), outcome).unwrap_err();
    assert_eq!(rejection.reason, "too large");

    let outcome: Result<Initial, Empty> = Err(Empty);
    assert_eq!(attach((), outcome).unwrap_err().reason, "empty");
}

#[test]
fn extending_stops_where_the_parameters_before_fail() {
    let input = String::new();
    let rejection = extend::<(Initial,), Number, _, _>(&input, &()).unwrap_err();
    assert_eq!(rejection.reason, "empty");

    let input = "x".to_string();
    let rejection = extend::<(Initial,), Number, _, _>(&input, &()).unwrap_err();
    assert_eq!(rejection.reason, "not a number: x");

    let input = "7".to_string();
    let extended = extend::<(Initial,), Number, _, _>(&input, &()).unwrap();
    assert_eq!(extended, ((Initial('7'),), Number(7)));
}

#[test]
fn a_tuple_is_extracted_member_by_member() {
    let input = "2024".to_string();
    assert_eq!(<() as Arguments<String, ()>>::extract_all(&input, &()).unwrap(), ());
    assert_eq!(<(Number,)>::extract_all(&input, &()).unwrap(), (Number(2024),));
    assert_eq!(
        <(Number, Initial)>::extract_all(&input, &()).unwrap(),
        (Number(2024), Initial('2'))
    );
    assert_eq!(
        <(Initial, State<bool>, Number)>::extract_all(&input, &true).unwrap().2,
        Number(2024)
    );
}

#[test]
fn a_tuple_is_rejected_as_its_first_failing_member() {
    let input = String::new();
    let rejection = <(Number, Initial)>::extract_all(&input, &()).unwrap_err();
    assert_eq!(rejection.reason, "not a number: ");
    let rejection = <(Initial, Number)>::extract_all(&input, &()).unwrap_err();
    assert_eq!(rejection.reason, "empty");

    let input = "later".to_string();
    let rejection = <(Initial, Initial, Number, Initial)>::extract_all(&input, &()).unwrap_err();
    assert_eq!(rejection.reason, "not a number: later");
}

#[test]
fn a_callable_takes_its_parameters_as_a_tuple() {
    assert_eq!((|| 7).call(()), 7);
    assert_eq!((|a: u8| a + 1).call((1,)), 2);
    assert_eq!((|a: u8, b: u8| a - b).call((5, 3)), 2);
    assert_eq!((|a: &str, b: char, c: usize| format!("{a}{b}{c}")).call(("a", 'b', 3)), "ab3");

    fn digits(a: u8, b: u8, c: u8, d: u8, e: u8, f: u8, g: u8, h: u8, i: u8, j: u8, k: u8, l: u8) -> String {
        format!("{a}{b}{c}{d}{e}{f}{g}{h}{i}{j}{k}{l}")
    }
    assert_eq!(digits.call((1, 2, 3, 4, 5, 6, 7, 8, 9, 0, 1, 2)), "123456789012");
}

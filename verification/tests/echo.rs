use webservice::echo::{echo_route, reversed, uppercase, EchoRoute, ECHO_HINT};

#[test]
fn echo_routes() {
    assert_eq!(echo_route("GET", "/"), EchoRoute::Hint);
    assert_eq!(echo_route("POST", "/echo"), EchoRoute::Echo);
    assert_eq!(echo_route("POST", "/echo/uppercase"), EchoRoute::Uppercase);
    assert_eq!(echo_route("POST", "/echo/reverse"), EchoRoute::Reverse);
}

#[test]
fn echo_routes_that_are_not() {
    assert_eq!(echo_route("POST", "/"), EchoRoute::NotFound);
    assert_eq!(echo_route("GET", "/echo"), EchoRoute::NotFound);
    assert_eq!(echo_route("GET", "/echo/uppercase"), EchoRoute::NotFound);
    assert_eq!(echo_route("GET", "/echo/reverse"), EchoRoute::NotFound);
    assert_eq!(echo_route("PUT", "/echo"), EchoRoute::NotFound);
    assert_eq!(echo_route("post", "/echo"), EchoRoute::NotFound);
    assert_eq!(echo_route("POST", "/echo/"), EchoRoute::NotFound);
    assert_eq!(echo_route("POST", "/Echo"), EchoRoute::NotFound);
    assert_eq!(echo_route("GET", ""), EchoRoute::NotFound);
    assert_eq!(echo_route("", "/"), EchoRoute::NotFound);
}

#[test]
fn echo_hint() {
    assert_eq!(ECHO_HINT, "Try POSTing data to /echo");
}

#[test]
fn uppercase_changes_ascii_letters_only() {
    assert_eq!(uppercase(b"Hello, World! 123"), b"HELLO, WORLD! 123".to_vec());
    assert_eq!(uppercase(b"az`{AZ@["), b"AZ`{AZ@[".to_vec());
    assert_eq!(uppercase("héllo".as_bytes()), "HéLLO".as_bytes().to_vec());
    assert_eq!(uppercase(&[0, 96, 97, 122, 123, 255]), vec![0, 96, 65, 90, 123, 255]);
    assert_eq!(uppercase(b""), Vec::<u8>::new());
    let all: Vec<u8> = (0..=255).collect();
    let expected: Vec<u8> = all.iter().map(|b| b.to_ascii_uppercase()).collect();
    assert_eq!(uppercase(&all), expected);
}

#[test]
fn uppercase_twice_is_uppercase() {
    let once = uppercase(b"some body, once told me");
    assert_eq!(uppercase(&once), once);
}

#[test]
fn reversed_bytes() {
    assert_eq!(reversed(b"abc"), b"cba".to_vec());
    assert_eq!(reversed(b"a"), b"a".to_vec());
    assert_eq!(reversed(b""), Vec::<u8>::new());
    assert_eq!(reversed(&[1, 2, 3, 4]), vec![4, 3, 2, 1]);
}

#[test]
fn reversed_twice_is_the_same() {
    let body = b"never odd or even?".to_vec();
    assert_eq!(reversed(&reversed(&body)), body);
}

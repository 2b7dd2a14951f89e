use hickory_to_socket_addrs::port::parse_port;
use hickory_to_socket_addrs::text::{chars_of, find_separator};
use hickory_to_socket_addrs::{HickoryToSocketAddrs, ParseError};

fn parts(text: &str) -> Result<(String, u16), ParseError> {
    HickoryToSocketAddrs::from_str(text).map(|request| (request.host().clone(), request.port()))
}

fn by_std(text: &str) -> Result<(String, u16), ParseError> {
    let (host, port) = text.rsplit_once(':').ok_or(ParseError::MissingSeparator)?;
    let port = port.parse::<u16>().map_err(|_| ParseError::InvalidPort)?;
    Ok((host.to_owned(), port))
}

#[test]
fn parses_host_and_port() {
    assert_eq!(parts("www.rust-lang.org:443"), Ok(("www.rust-lang.org".to_owned(), 443)));
    assert_eq!(parts("host:8080"), Ok(("host".to_owned(), 8080)));
    assert_eq!(parts("localhost:0"), Ok(("localhost".to_owned(), 0)));
    assert_eq!(parts("localhost:65535"), Ok(("localhost".to_owned(), 65535)));
}

#[test]
fn every_port_is_read_back() {
    for port in 0..=u16::MAX {
        let text = format!("host.example:{}", port);
        assert_eq!(parts(&text), Ok(("host.example".to_owned(), port)));
    }
}

#[test]
fn text_without_colon_is_refused() {
    assert_eq!(parts("nohost"), Err(ParseError::MissingSeparator));
    assert_eq!(parts(""), Err(ParseError::MissingSeparator));
    assert_eq!(parts("443"), Err(ParseError::MissingSeparator));
    assert_eq!(parts("www.example.test"), Err(ParseError::MissingSeparator));
}

#[test]
fn bad_port_is_refused() {
    assert_eq!(parts("host:notaport"), Err(ParseError::InvalidPort));
    assert_eq!(parts("host:99999"), Err(ParseError::InvalidPort));
    assert_eq!(parts("host:-1"), Err(ParseError::InvalidPort));
    assert_eq!(parts("host:65536"), Err(ParseError::InvalidPort));
    assert_eq!(parts("host:"), Err(ParseError::InvalidPort));
    assert_eq!(parts("host:+"), Err(ParseError::InvalidPort));
    assert_eq!(parts("host:++1"), Err(ParseError::InvalidPort));
    assert_eq!(parts("host:-"), Err(ParseError::InvalidPort));
    assert_eq!(parts("host: 80"), Err(ParseError::InvalidPort));
    assert_eq!(parts("host:80 "), Err(ParseError::InvalidPort));
    assert_eq!(parts("host:8o"), Err(ParseError::InvalidPort));
    assert_eq!(parts("host:0x50"), Err(ParseError::InvalidPort));
    assert_eq!(parts("host:4294967376"), Err(ParseError::InvalidPort));
    assert_eq!(parts("host:18446744073709551696"), Err(ParseError::InvalidPort));
    assert_eq!(parts("host:\u{663}\u{664}"), Err(ParseError::InvalidPort));
    assert_eq!(parts(":"), Err(ParseError::InvalidPort));
}

#[test]
fn port_may_carry_a_plus_and_leading_zeros() {
    assert_eq!(parts("host:+443"), Ok(("host".to_owned(), 443)));
    assert_eq!(parts("host:00080"), Ok(("host".to_owned(), 80)));
    assert_eq!(parts("host:+0"), Ok(("host".to_owned(), 0)));
    assert_eq!(
        parts("host:0000000000000000000000000000065535"),
        Ok(("host".to_owned(), 65535))
    );
    assert_eq!(
        parts("host:0000000000000000000000000000065536"),
        Err(ParseError::InvalidPort)
    );
}

#[test]
fn split_is_at_the_last_colon() {
    assert_eq!(parts("a:b:80"), Ok(("a:b".to_owned(), 80)));
    assert_eq!(parts("[::1]:443"), Ok(("[::1]".to_owned(), 443)));
    assert_eq!(parts("host:80:"), Err(ParseError::InvalidPort));
    assert_eq!(parts("80:host"), Err(ParseError::InvalidPort));
    assert_eq!(parts("::1"), Ok((":".to_owned(), 1)));
}

#[test]
fn host_is_kept_as_written() {
    assert_eq!(parts(":443"), Ok((String::new(), 443)));
    assert_eq!(parts(" Host.Example. :443"), Ok((" Host.Example. ".to_owned(), 443)));
    assert_eq!(parts("b\u{fc}cher.example:443"), Ok(("b\u{fc}cher.example".to_owned(), 443)));
    assert_eq!(
        parts("\u{4f8b}\u{3048}.\u{30c6}\u{30b9}\u{30c8}:8443"),
        Ok(("\u{4f8b}\u{3048}.\u{30c6}\u{30b9}\u{30c8}".to_owned(), 8443))
    );
    assert_eq!(parts("\u{1f980}:1"), Ok(("\u{1f980}".to_owned(), 1)));
    assert_eq!(parts("not a name!:7"), Ok(("not a name!".to_owned(), 7)));
}

#[test]
fn agrees_with_split_and_integer_parse() {
    let texts = [
        "", ":", "::", "a", "a:", ":1", "a:1", "a:+1", "a:-1", "a:+", "a:-", "a:01", "a:1:2",
        "a:b", "a:65535", "a:65536", "a:065535", "a:+065535", "a:655350", "a:1e3", "a:1_000",
        "a:1.0", "a:\u{ff11}", "\u{e9}:1", "a:\u{e9}", "a:1\u{e9}", "a:+-1", "a:-+1", "a: 1",
        "a:\t1", "a:1\n", "[2001:db8::1]:53", "2001:db8::1", "example.org:https",
    ];
    for text in texts {
        assert_eq!(parts(text), by_std(text), "on {:?}", text);
    }
}

#[test]
fn round_trip_rebuilds_the_request() {
    let hosts = ["www.example.test", "localhost", "", "10.0.0.1", "b\u{fc}cher.example", "a:b"];
    let ports = [0u16, 1, 9, 10, 80, 443, 8080, 9999, 10000, 65534, 65535];
    for host in hosts {
        for port in ports {
            let built = HickoryToSocketAddrs::new(host.to_owned(), port);
            let text = format!("{}:{}", built.host(), built.port());
            let read = HickoryToSocketAddrs::from_str(&text).unwrap();
            assert_eq!(read.host(), built.host());
            assert_eq!(read.port(), built.port());
        }
    }
}

#[test]
fn request_keeps_its_parts() {
    let request = HickoryToSocketAddrs::new("example.org".to_owned(), 53);
    assert_eq!(request.host(), "example.org");
    assert_eq!(request.port(), 53);
    let other = HickoryToSocketAddrs::new(17u32, 65535);
    assert_eq!(*other.host(), 17);
    assert_eq!(other.port(), 65535);
}

#[test]
fn errors_describe_themselves() {
    assert_eq!(ParseError::MissingSeparator.message(), "invalid socket address");
    assert_eq!(ParseError::InvalidPort.message(), "invalid port value");
    assert_eq!(
        HickoryToSocketAddrs::from_str("nohost").unwrap_err().message(),
        "invalid socket address"
    );
    assert_eq!(
        HickoryToSocketAddrs::from_str("host:notaport").unwrap_err().message(),
        "invalid port value"
    );
}

#[test]
fn port_text_is_read_alone() {
    let read = |text: &str| parse_port(&chars_of(text));
    assert_eq!(read("80"), Some(80));
    assert_eq!(read("0"), Some(0));
    assert_eq!(read("65535"), Some(65535));
    assert_eq!(read("+65535"), Some(65535));
    assert_eq!(read("007"), Some(7));
    assert_eq!(read("65536"), None);
    assert_eq!(read("99999"), None);
    assert_eq!(read(""), None);
    assert_eq!(read("+"), None);
    assert_eq!(read("-1"), None);
    assert_eq!(read("notaport"), None);
    assert_eq!(read("4 43"), None);
    assert_eq!(read(":80"), None);
    for port in 0..=u16::MAX {
        assert_eq!(read(&port.to_string()), Some(port));
    }
    for beyond in 65536u32..70000 {
        assert_eq!(read(&beyond.to_string()), None);
    }
}

#[test]
fn separator_is_the_last_colon() {
    let find = |text: &str| find_separator(&chars_of(text));
    assert_eq!(find("host:80"), Some(4));
    assert_eq!(find("a:b:c"), Some(3));
    assert_eq!(find(":"), Some(0));
    assert_eq!(find("::"), Some(1));
    assert_eq!(find("trailing:"), Some(8));
    assert_eq!(find("nohost"), None);
    assert_eq!(find(""), None);
    assert_eq!(find("b\u{fc}cher:1"), Some(6));
}

#[test]
fn chars_are_taken_in_order() {
    assert_eq!(chars_of(""), Vec::<char>::new());
    assert_eq!(chars_of("a:1"), vec!['a', ':', '1']);
    assert_eq!(chars_of("\u{e9}\u{4f8b}\u{1f980}z"), vec!['\u{e9}', '\u{4f8b}', '\u{1f980}', 'z']);
}

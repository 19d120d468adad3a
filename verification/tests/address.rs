use fleeting::address::Ipv4;

#[test]
fn address_in_dotted_notation() {
    assert_eq!(Ipv4 { a: 10, b: 0, c: 0, d: 1 }.to_text(), "10.0.0.1");
    assert_eq!(Ipv4 { a: 0, b: 0, c: 0, d: 0 }.to_text(), "0.0.0.0");
    assert_eq!(Ipv4 { a: 255, b: 255, c: 255, d: 255 }.to_text(), "255.255.255.255");
    assert_eq!(Ipv4 { a: 192, b: 168, c: 64, d: 7 }.to_text(), "192.168.64.7");
}

#[test]
fn address_is_read_from_dotted_notation() {
    assert_eq!(Ipv4::parse("10.0.0.1"), Some(Ipv4 { a: 10, b: 0, c: 0, d: 1 }));
    assert_eq!(Ipv4::parse("0.0.0.0"), Some(Ipv4 { a: 0, b: 0, c: 0, d: 0 }));
    assert_eq!(Ipv4::parse("255.255.255.255"), Some(Ipv4 { a: 255, b: 255, c: 255, d: 255 }));
    assert_eq!(Ipv4::parse("54.201.3.99"), Some(Ipv4 { a: 54, b: 201, c: 3, d: 99 }));
}

#[test]
fn address_that_is_not_dotted_notation_is_refused() {
    for text in ["", "1.2.3", "1.2.3.4.5", "1..2.3", "256.1.1.1", "1.2.3.256", "01.2.3.4", "1.2.3.04", "1.2.3.4 ", " 1.2.3.4", "a.b.c.d", "1.2.3.-4", "1,2,3,4", "1.2.3.4.", ".1.2.3.4", "1000.2.3.4", "１.2.3.4"] {
        assert_eq!(Ipv4::parse(text), None, "{:?}", text);
    }
}

#[test]
fn address_round_trips() {
    for (a, b, c, d) in [(1u8, 2u8, 3u8, 4u8), (0, 10, 100, 200), (9, 99, 199, 255), (127, 0, 0, 1)] {
        let address = Ipv4 { a, b, c, d };
        assert_eq!(Ipv4::parse(&address.to_text()), Some(address));
    }
}

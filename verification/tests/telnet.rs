use ptyctl::negotiator::Negotiator;
use ptyctl::telnet::{
    normalize_telnet_line_endings, TelnetEvent, TelnetLineEnding, TelnetParser, DO, IAC, OPT_NAWS,
    OPT_TTYPE, SB, SE, TTYPE_IS, TTYPE_SEND, WILL, WONT,
};

#[test]
fn parser_handles_iac_iac() {
    let mut parser = TelnetParser::new();
    let result = parser.process(&[IAC, IAC, b'A']);
    assert_eq!(result.data, vec![IAC, b'A']);
}

#[test]
fn parser_handles_split_subnegotiation() {
    let mut parser = TelnetParser::new();
    let part1 = parser.process(&[IAC, SB, OPT_TTYPE, TTYPE_SEND]);
    assert!(part1.events.is_empty());
    let part2 = parser.process(&[IAC, SE]);
    assert_eq!(part2.events.len(), 1);
    match &part2.events[0] {
        TelnetEvent::Subnegotiation { option, data } => {
            assert_eq!(*option, OPT_TTYPE);
            assert_eq!(data, &vec![TTYPE_SEND]);
        }
        _ => panic!("unexpected event"),
    }
}

#[test]
fn parser_doubles_escaped_iac_in_subnegotiation() {
    let mut parser = TelnetParser::new();
    let result = parser.process(&[IAC, SB, OPT_TTYPE, IAC, IAC, 7, IAC, SE]);
    assert_eq!(result.events.len(), 1);
    match &result.events[0] {
        TelnetEvent::Subnegotiation { option, data } => {
            assert_eq!(*option, OPT_TTYPE);
            assert_eq!(data, &vec![IAC, 7]);
        }
        _ => panic!("unexpected event"),
    }
}

#[test]
fn negotiator_responds_to_ttype_send() {
    let mut negotiator = Negotiator::new("xterm".to_string(), 80, 24);
    let responses = negotiator.handle_event(TelnetEvent::Subnegotiation {
        option: OPT_TTYPE,
        data: vec![TTYPE_SEND],
    });
    assert_eq!(responses.len(), 1);
    assert!(responses[0].starts_with(&[IAC, SB, OPT_TTYPE, TTYPE_IS]));
}

#[test]
fn negotiator_accepts_naws() {
    let mut negotiator = Negotiator::new("xterm".to_string(), 80, 24);
    let responses = negotiator.handle_event(TelnetEvent::Negotiation {
        command: DO,
        option: OPT_NAWS,
    });
    assert!(responses.iter().any(|resp| resp.starts_with(&[IAC, WILL, OPT_NAWS])));
    assert!(responses.iter().any(|resp| resp.starts_with(&[IAC, SB, OPT_NAWS])));
}

#[test]
fn negotiator_is_idempotent_on_redundant_do() {
    let mut negotiator = Negotiator::new("xterm".to_string(), 80, 24);
    let first = negotiator.handle_event(TelnetEvent::Negotiation { command: DO, option: 3 });
    assert_eq!(first, vec![vec![IAC, WILL, 3]]);
    let second = negotiator.handle_event(TelnetEvent::Negotiation { command: DO, option: 3 });
    assert!(second.is_empty());
}

#[test]
fn negotiator_refuses_unsupported_option_once() {
    let mut negotiator = Negotiator::new("xterm".to_string(), 80, 24);
    let responses = negotiator.handle_event(TelnetEvent::Negotiation { command: DO, option: 99 });
    assert_eq!(responses, vec![vec![IAC, WONT, 99]]);
}

#[test]
fn set_window_size_emits_naws_only_when_enabled() {
    let mut negotiator = Negotiator::new("xterm".to_string(), 80, 24);
    assert!(negotiator.set_window_size(100, 50).is_none());
    negotiator.handle_event(TelnetEvent::Negotiation { command: DO, option: OPT_NAWS });
    let frame = negotiator.set_window_size(300, 70).expect("naws frame");
    assert_eq!(frame, vec![IAC, SB, OPT_NAWS, 1, 44, 0, 70, IAC, SE]);
}

#[test]
fn naws_doubles_ff_dimension_bytes() {
    let mut negotiator = Negotiator::new("term".to_string(), 0xff, 24);
    negotiator.handle_event(TelnetEvent::Negotiation { command: DO, option: OPT_NAWS });
    let frame = negotiator.set_window_size(0xff, 24).expect("naws frame");
    assert_eq!(frame, vec![IAC, SB, OPT_NAWS, 0, IAC, IAC, 0, 24, IAC, SE]);
}

#[test]
fn normalize_telnet_line_endings_cr() {
    let input = b"show\nrun\n";
    let out = normalize_telnet_line_endings(input, TelnetLineEnding::Cr);
    assert_eq!(out, b"show\rrun\r");
}

#[test]
fn normalize_covers_all_policies() {
    let input = b"a\nb";
    assert_eq!(
        normalize_telnet_line_endings(input, TelnetLineEnding::Crlf),
        b"a\r\nb"
    );
    assert_eq!(normalize_telnet_line_endings(input, TelnetLineEnding::Lf), b"a\nb");
    assert_eq!(
        normalize_telnet_line_endings(input, TelnetLineEnding::PassThrough),
        b"a\nb"
    );
}

#[test]
fn subnegotiation_survives_any_split() {
    let frame = [IAC, SB, OPT_TTYPE, TTYPE_SEND, IAC, SE];
    for cut in 0..=frame.len() {
        let mut parser = TelnetParser::new();
        let first = parser.process(&frame[..cut]);
        let second = parser.process(&frame[cut..]);
        let events = first.events.len() + second.events.len();
        assert_eq!(events, 1, "split at {cut}");
        assert!(first.data.is_empty() && second.data.is_empty());
    }
}

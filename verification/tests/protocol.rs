use pingd::protocol::{classify, parse_line, Command, Reply};

fn trim_and_match(line: &str) -> Command {
    match line.trim() {
        "PING" => Command::Ping,
        "STOP" => Command::Stop,
        _ => Command::Other,
    }
}

#[test]
fn ping_is_recognised() {
    assert_eq!(classify("PING"), Command::Ping);
    assert_eq!(classify("PING\n"), Command::Ping);
    assert_eq!(classify("PING\r\n"), Command::Ping);
}

#[test]
fn stop_is_recognised() {
    assert_eq!(classify("STOP"), Command::Stop);
    assert_eq!(classify("STOP\n"), Command::Stop);
    assert_eq!(classify("STOP\r\n"), Command::Stop);
}

#[test]
fn surrounding_whitespace_is_trimmed() {
    assert_eq!(classify("  PING  \n"), Command::Ping);
    assert_eq!(classify("\t\tSTOP \r\n"), Command::Stop);
    assert_eq!(classify("\u{A0}PING\u{3000}\n"), Command::Ping);
    assert_eq!(classify("\n\nSTOP"), Command::Stop);
}

#[test]
fn every_kind_of_whitespace_is_trimmed() {
    let mut kinds = 0;
    for code in 0..=0x10FFFFu32 {
        let c = match char::from_u32(code) {
            Some(c) if c.is_whitespace() => c,
            _ => continue,
        };
        kinds += 1;
        assert_eq!(classify(&format!("{}PING", c)), Command::Ping, "U+{:04X}", code);
        assert_eq!(classify(&format!("STOP{}", c)), Command::Stop, "U+{:04X}", code);
        assert_eq!(classify(&format!("{}{}PING{}\n", c, c, c)), Command::Ping, "U+{:04X}", code);
        assert_eq!(classify(&format!("PI{}NG", c)), Command::Other, "U+{:04X}", code);
        assert_eq!(classify(&format!("{}", c)), Command::Other, "U+{:04X}", code);
    }
    assert_eq!(kinds, 25);
}

#[test]
fn what_is_no_whitespace_is_not_trimmed() {
    for c in ['\0', '\u{8}', '\u{E}', '\u{7F}', '\u{200B}', '\u{180E}', '\u{FEFF}', '.', 'x'] {
        assert_eq!(classify(&format!("{}PING", c)), Command::Other, "{:?}", c);
        assert_eq!(classify(&format!("PING{}", c)), Command::Other, "{:?}", c);
        assert_eq!(classify(&format!(" PING {} ", c)), Command::Other, "{:?}", c);
    }
}

#[test]
fn long_lines_are_read_to_their_end() {
    let mut line = String::from("PING");
    for _ in 0..100000 {
        line.push(' ');
    }
    assert_eq!(classify(&line), Command::Ping);
    line.push('x');
    assert_eq!(classify(&line), Command::Other);
    let mut line = String::new();
    for _ in 0..100000 {
        line.push('\t');
    }
    line.push_str("STOP\r\n");
    assert_eq!(classify(&line), Command::Stop);
    assert_eq!(classify(&line[..100003]), Command::Other);
    let mut line = String::from("STOPS");
    for _ in 0..300 {
        line.push('S');
    }
    assert_eq!(classify(&line), Command::Other);
}

#[test]
fn matching_is_case_sensitive() {
    assert_eq!(classify("ping\n"), Command::Other);
    assert_eq!(classify("Ping\n"), Command::Other);
    assert_eq!(classify("stop\n"), Command::Other);
    assert_eq!(classify("StoP\n"), Command::Other);
}

#[test]
fn matching_is_exact() {
    assert_eq!(classify("PING extra\n"), Command::Other);
    assert_eq!(classify("extra PING\n"), Command::Other);
    assert_eq!(classify("PINGPING\n"), Command::Other);
    assert_eq!(classify("PIN\n"), Command::Other);
    assert_eq!(classify("PINGS\n"), Command::Other);
    assert_eq!(classify("P ING\n"), Command::Other);
    assert_eq!(classify("STOPPING\n"), Command::Other);
    assert_eq!(classify("STOP PING\n"), Command::Other);
    assert_eq!(classify("PINO\n"), Command::Other);
    assert_eq!(classify("STOG\n"), Command::Other);
    assert_eq!(classify("\u{200B}PING\n"), Command::Other);
}

#[test]
fn empty_lines_ask_for_nothing() {
    assert_eq!(classify(""), Command::Other);
    assert_eq!(classify("\n"), Command::Other);
    assert_eq!(classify("\r\n"), Command::Other);
    assert_eq!(classify("   \n"), Command::Other);
}

#[test]
fn classify_agrees_with_trim_and_match() {
    let alphabet = [' ', '\n', '\r', 'P', 'I', 'N', 'G', 'S', 'T', 'O', '\u{A0}', 'x'];
    let mut seed: u64 = 0x9E3779B97F4A7C15;
    let mut pings = 0;
    let mut stops = 0;
    for _ in 0..200000 {
        let mut text = String::new();
        seed = seed.wrapping_mul(6364136223846793005).wrapping_add(1442695040888963407);
        let pad = (seed >> 33) % 3;
        for _ in 0..pad {
            text.push(' ');
        }
        seed = seed.wrapping_mul(6364136223846793005).wrapping_add(1442695040888963407);
        let len = 3 + (seed >> 33) % 3;
        for _ in 0..len {
            seed = seed.wrapping_mul(6364136223846793005).wrapping_add(1442695040888963407);
            text.push(alphabet[((seed >> 33) % alphabet.len() as u64) as usize]);
        }
        let expected = trim_and_match(&text);
        assert_eq!(classify(&text), expected, "{:?}", text);
        match expected {
            Command::Ping => pings += 1,
            Command::Stop => stops += 1,
            Command::Other => {}
        }
    }
    assert!(pings > 0 && stops > 0);
}

#[test]
fn classify_agrees_with_trim_and_match_near_the_words() {
    let pads = ["", " ", "\n", "\r\n", "\t ", "\u{A0}", "x", "\u{200B}"];
    let words = ["PING", "STOP", "PINg", "SToP", "PIN", "STO", "PINGG", "", "PING STOP"];
    for before in pads {
        for word in words {
            for after in pads {
                let text = format!("{}{}{}", before, word, after);
                assert_eq!(classify(&text), trim_and_match(&text), "{:?}", text);
            }
        }
    }
}

#[test]
fn parse_line_reads_text() {
    assert_eq!(parse_line(b"PING\n"), Some(Command::Ping));
    assert_eq!(parse_line(b"PING\r\n"), Some(Command::Ping));
    assert_eq!(parse_line(b"STOP\n"), Some(Command::Stop));
    assert_eq!(parse_line(b"hello\n"), Some(Command::Other));
    assert_eq!(parse_line(b""), Some(Command::Other));
    assert_eq!(parse_line("\u{A0}STOP\u{2003}\n".as_bytes()), Some(Command::Stop));
    assert_eq!(parse_line("gr\u{FC}\u{DF}e\n".as_bytes()), Some(Command::Other));
}

#[test]
fn parse_line_refuses_what_is_not_utf8() {
    assert_eq!(parse_line(&[0xFF, b'\n']), None);
    assert_eq!(parse_line(&[b'P', b'I', b'N', b'G', 0x80, b'\n']), None);
    assert_eq!(parse_line(&[0xC3, b'\n']), None);
    assert_eq!(parse_line(&[0xC0, 0xAF, b'\n']), None);
    assert_eq!(parse_line(&[0xED, 0xA0, 0x80, b'\n']), None);
    assert_eq!(parse_line(&[0xF4, 0x90, 0x80, 0x80]), None);
    assert_eq!(parse_line(&[0xE2, 0x82]), None);
}

#[test]
fn parse_line_agrees_with_std_on_every_byte_pair() {
    for a in 0..=255u8 {
        for b in 0..=255u8 {
            let line = [a, b, b'\n'];
            let expected = match std::str::from_utf8(&line) {
                Ok(text) => Some(trim_and_match(text)),
                Err(_) => None,
            };
            assert_eq!(parse_line(&line), expected, "{:?}", line);
        }
    }
}

#[test]
fn commands_are_owed_their_replies() {
    assert_eq!(Command::Ping.reply(), Some(Reply::Pong));
    assert_eq!(Command::Stop.reply(), Some(Reply::Sure));
    assert_eq!(Command::Other.reply(), None);
}

#[test]
fn replies_are_exact_bytes() {
    assert_eq!(Reply::Pong.bytes(), b"PONG\r\n".to_vec());
    assert_eq!(Reply::Sure.bytes(), b"SURE\r\n".to_vec());
}

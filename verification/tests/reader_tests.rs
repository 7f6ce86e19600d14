use radar_monitor::history::ReadingHistory;
use radar_monitor::reader::process_line;
use radar_monitor::reader::LineSplitter;

#[test]
fn splitter_completes_line_at_newline() {
    let mut sp = LineSplitter::new();
    let mut lines: Vec<Vec<u8>> = Vec::new();
    for b in b"45, 28\n" {
        if let Some(l) = sp.feed(*b) {
            lines.push(l);
        }
    }
    assert_eq!(lines, vec![b"45, 28".to_vec()]);
}

#[test]
fn splitter_drops_carriage_return_before_newline() {
    let mut sp = LineSplitter::new();
    let mut line: Option<Vec<u8>> = None;
    for b in b"abc\r\n" {
        if let Some(l) = sp.feed(*b) {
            line = Some(l);
        }
    }
    assert_eq!(line, Some(b"abc".to_vec()));
}

#[test]
fn splitter_keeps_interior_carriage_return() {
    let mut sp = LineSplitter::new();
    let mut line: Option<Vec<u8>> = None;
    for b in b"a\rb\n" {
        if let Some(l) = sp.feed(*b) {
            line = Some(l);
        }
    }
    assert_eq!(line, Some(b"a\rb".to_vec()));
}

#[test]
fn splitter_yields_empty_line_for_lone_newline() {
    let mut sp = LineSplitter::new();
    assert_eq!(sp.feed(b'\n'), Some(Vec::new()));
}

#[test]
fn splitter_holds_bytes_until_newline() {
    let mut sp = LineSplitter::new();
    assert_eq!(sp.feed(b'x'), None);
    assert_eq!(sp.feed(b'y'), None);
    assert_eq!(sp.feed(b'\n'), Some(b"xy".to_vec()));
    assert_eq!(sp.feed(b'\n'), Some(Vec::new()));
}

#[test]
fn process_line_builds_a_reading() {
    let r = process_line("Angle: 10, Distance: 2 cm").expect("line should parse");
    assert_eq!(r.angle, "10");
    assert_eq!(r.distance, "2 cm");
}

#[test]
fn process_line_drops_malformed_input() {
    assert!(process_line("garbage").is_none());
    assert!(process_line("a,b,c").is_none());
}

#[test]
fn stream_to_history_end_to_end() {
    let raw = b"Angle: 0, Distance: 5 cm\r\nnoise\nAngle: 10, Distance: 6 cm\n";
    let mut sp = LineSplitter::new();
    let mut h = ReadingHistory::new(10);
    for b in raw {
        if let Some(l) = sp.feed(*b) {
            let text = String::from_utf8(l).expect("serial text should be valid");
            if let Some(r) = process_line(&text) {
                h.push(r);
            }
        }
    }
    let s = h.snapshot();
    assert_eq!(s.len(), 2);
    assert_eq!(s[0].angle, "0");
    assert_eq!(s[0].distance, "5 cm");
    assert_eq!(s[1].angle, "10");
    assert_eq!(s[1].distance, "6 cm");
}

use log_metrics::guard::refuse;
use log_metrics::ingest::handle_json;
use log_metrics::json::parse_json_line;
use log_metrics::text::TextParser;

struct Dice(u64);

impl Dice {
    fn roll(&mut self, sides: usize) -> usize {
        self.0 = self.0.wrapping_mul(6364136223846793005).wrapping_add(1442695040888963407);
        ((self.0 >> 33) as usize) % sides
    }

    fn line(&mut self, pieces: &[&str], longest: usize) -> String {
        let count = self.roll(longest + 1);
        let mut line = String::new();
        for _ in 0..count {
            line.push_str(pieces[self.roll(pieces.len())]);
        }
        line
    }
}

const JSON_PIECES: [&str; 30] = [
    "{", "}", "[", "]", ",", ":", "\"", "\\", " ", "\"a\"", "\"a\":", "1", "0", "-", "e", "E", "+",
    ".", "true", "false", "null", "\\u00e9", "\\ud83d\\ude00", "\"operation\":\"o\"",
    "\"username\":\"u\"", "\"eventTime\":7", "{\"a\":1}", "[1,2]", ",}", "\t",
];

#[test]
fn no_line_of_json_pieces_ends_the_reader() {
    let mut dice = Dice(1);
    let mut kept_out = 0usize;
    let mut skipped = 0usize;
    for _ in 0..150_000 {
        let line = dice.line(&JSON_PIECES, 14);
        if refuse(line.as_bytes()).is_some() {
            kept_out += 1;
        }
        if parse_json_line(&line).is_err() {
            skipped += 1;
        }
    }
    assert!(kept_out > 0);
    assert!(skipped >= kept_out);
}

#[test]
fn no_nest_of_objects_and_arrays_ends_the_reader() {
    let mut dice = Dice(2);
    let pieces = ["{\"k\":", "[", "{\"k\":1,", "[1,", "}", "]", ",", "1", "\"s\"", "{}", "[]", " "];
    for _ in 0..150_000 {
        let line = dice.line(&pieces, 16);
        let _ = parse_json_line(&line);
    }
}

#[test]
fn no_bytes_end_the_reader() {
    let mut dice = Dice(3);
    for _ in 0..100_000 {
        let length = dice.roll(12);
        let bytes: Vec<u8> = (0..length).map(|_| dice.roll(256) as u8).collect();
        let line = String::from_utf8_lossy(&bytes).into_owned();
        let _ = parse_json_line(&line);
    }
}

#[test]
fn a_file_of_broken_lines_is_read_to_its_end() {
    let mut dice = Dice(4);
    let lines: Vec<String> = (0..20_000).map(|_| dice.line(&JSON_PIECES, 10)).collect();
    let report = handle_json(&lines);
    assert_eq!(report.events.len() + report.rejected.len(), lines.len());
}

#[test]
fn no_line_of_text_pieces_ends_the_parser() {
    let parser = TextParser::new().unwrap();
    let pieces = [
        "2015-06-01", " ", "12:00:00", ":", "-", "0", "9", "99999", "ugi=", "cmd=", "a", "_", "\t",
        "+262143-01-01", "-262143-01-01", "60", "24", "13", "32", "\u{e9}", "=", "1970-01-01 00:00:00",
        "0000-00-00", "2016-02-29", "2015-02-29", "23:59:60", "١٢", "２０１５",
    ];
    let mut dice = Dice(5);
    let mut read = 0usize;
    for _ in 0..100_000 {
        let line = dice.line(&pieces, 10);
        if parser.parse_line(&line).is_ok() {
            read += 1;
        }
    }
    assert!(read > 0);
}

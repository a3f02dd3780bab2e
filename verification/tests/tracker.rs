use factorio_server::error::ServerError;
use factorio_server::factorio_tracker::{FactorioTracker, Look, POLL_SECONDS};

fn lines(texts: &[&str]) -> Vec<String> {
    texts.iter().map(|text| text.to_string()).collect()
}

#[test]
fn a_new_tracker_stands_at_the_beginning() {
    assert_eq!(FactorioTracker::watch(), FactorioTracker { file_pos: 0, last_size: 0 });
    assert_eq!(POLL_SECONDS, 1);
}

#[test]
fn without_a_log_nothing_is_done() {
    let mut tracker = FactorioTracker { file_pos: 5, last_size: 9 };
    assert_eq!(tracker.observe_size(None), Look { read_from: None, check_process: false });
    assert_eq!(tracker, FactorioTracker { file_pos: 5, last_size: 9 });
}

#[test]
fn a_log_that_has_grown_is_read_from_the_last_place() {
    let mut tracker = FactorioTracker { file_pos: 5, last_size: 9 };
    assert_eq!(tracker.observe_size(Some(20)), Look { read_from: Some(5), check_process: true });
    assert_eq!(tracker, FactorioTracker { file_pos: 5, last_size: 20 });
}

#[test]
fn a_log_of_the_same_size_is_left_alone() {
    let mut tracker = FactorioTracker { file_pos: 5, last_size: 9 };
    assert_eq!(tracker.observe_size(Some(9)), Look { read_from: None, check_process: true });
    assert_eq!(tracker, FactorioTracker { file_pos: 5, last_size: 9 });
}

#[test]
fn a_log_that_shrank_is_read_from_the_beginning() {
    let mut tracker = FactorioTracker { file_pos: 90, last_size: 100 };
    assert_eq!(tracker.observe_size(Some(30)), Look { read_from: Some(0), check_process: true });
    assert_eq!(tracker, FactorioTracker { file_pos: 0, last_size: 30 });
}

#[test]
fn a_log_that_was_emptied_waits_for_new_lines() {
    let mut tracker = FactorioTracker { file_pos: 90, last_size: 100 };
    assert_eq!(tracker.observe_size(Some(0)), Look { read_from: None, check_process: true });
    assert_eq!(tracker, FactorioTracker { file_pos: 0, last_size: 0 });
}

#[test]
fn complete_lines_are_handed_on_without_their_ends() {
    let mut tracker = FactorioTracker::watch();
    let read = tracker.read_lines(b"first\nsecond\r\n\nfourth\n").unwrap();
    assert_eq!(read, lines(&["first", "second", "", "fourth"]));
    assert_eq!(tracker.file_pos, 22);
}

#[test]
fn a_line_without_its_end_waits_for_the_next_read() {
    let mut tracker = FactorioTracker { file_pos: 100, last_size: 120 };
    assert_eq!(tracker.read_lines(b"done\nhalf a li").unwrap(), lines(&["done"]));
    assert_eq!(tracker, FactorioTracker { file_pos: 105, last_size: 120 });
    assert_eq!(tracker.read_lines(b"half a line\n").unwrap(), lines(&["half a line"]));
    assert_eq!(tracker.file_pos, 117);
    assert_eq!(tracker.read_lines(b"").unwrap(), lines(&[]));
    assert_eq!(tracker.read_lines(b"no end").unwrap(), lines(&[]));
    assert_eq!(tracker.file_pos, 117);
}

#[test]
fn only_one_carriage_return_is_taken_off() {
    let mut tracker = FactorioTracker::watch();
    assert_eq!(tracker.read_lines(b"a\r\r\nb\rc\n\r\n").unwrap(), lines(&["a\r", "b\rc", ""]));
    assert_eq!(tracker.file_pos, 10);
}

#[test]
fn lines_agree_with_the_standard_lines() {
    let text = "one\ntwo\r\n\nfour with ünïcödé\nfive\n";
    let mut tracker = FactorioTracker::watch();
    let expected: Vec<String> = text.lines().map(String::from).collect();
    assert_eq!(tracker.read_lines(text.as_bytes()).unwrap(), expected);
    assert_eq!(tracker.file_pos, text.len() as u64);
}

#[test]
fn reading_in_pieces_gives_every_line_once() {
    let log = b"alpha\nbeta\r\ngamma\n\ndelta\n";
    for cut in 0..=log.len() {
        let mut tracker = FactorioTracker::watch();
        let mut read = Vec::new();
        assert_eq!(tracker.observe_size(Some(cut as u64)).read_from.unwrap_or(0), 0);
        read.extend(tracker.read_lines(&log[..cut]).unwrap());
        let look = tracker.observe_size(Some(log.len() as u64));
        if let Some(from) = look.read_from {
            read.extend(tracker.read_lines(&log[from as usize..]).unwrap());
        }
        assert_eq!(read, lines(&["alpha", "beta", "gamma", "", "delta"]), "cut at {cut}");
        assert_eq!(tracker.file_pos, log.len() as u64);
    }
}

#[test]
fn a_replaced_log_is_read_anew_without_old_lines() {
    let mut tracker = FactorioTracker::watch();
    let old = b"old one\nold two\nold thr";
    assert_eq!(tracker.observe_size(Some(old.len() as u64)).read_from, Some(0));
    assert_eq!(tracker.read_lines(old).unwrap(), lines(&["old one", "old two"]));
    let new = b"new one\n";
    let look = tracker.observe_size(Some(new.len() as u64));
    assert_eq!(look.read_from, Some(0));
    assert_eq!(tracker.read_lines(new).unwrap(), lines(&["new one"]));
    assert_eq!(tracker, FactorioTracker { file_pos: 8, last_size: 8 });
    let grown = b"new one\nnew two\n";
    let look = tracker.observe_size(Some(grown.len() as u64));
    assert_eq!(look.read_from, Some(8));
    assert_eq!(tracker.read_lines(&grown[8..]).unwrap(), lines(&["new two"]));
}

#[test]
fn a_line_that_is_not_text_is_an_error() {
    let mut tracker = FactorioTracker { file_pos: 3, last_size: 40 };
    assert_eq!(tracker.read_lines(b"fine\n\xff\xfe\nlater\n"), Err(ServerError::Utf8Error()));
    assert_eq!(tracker, FactorioTracker { file_pos: 3, last_size: 40 });
    assert_eq!(tracker.read_lines(b"fine\n\xff\xfe"), Ok(lines(&["fine"])));
    assert_eq!(tracker.file_pos, 8);
}

#[test]
fn the_farewell_is_said_only_of_a_process_that_is_gone() {
    assert_eq!(FactorioTracker::farewell(true), None);
    assert_eq!(FactorioTracker::farewell(false), Some("factorio process stopped".to_string()));
}

#[test]
fn the_process_is_looked_for_by_the_pidfile() {
    assert_eq!(FactorioTracker::check_process(None), Ok(None));
    assert_eq!(
        FactorioTracker::check_process(Some("not a pid")),
        Err(ServerError::ParseIntError("not a pid".to_string()))
    );
    assert_eq!(
        FactorioTracker::check_process(Some("4294967295")),
        Ok(Some("factorio process stopped".to_string()))
    );
}

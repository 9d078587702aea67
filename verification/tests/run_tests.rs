use instance_meta::manifest::manifest_lines;
use instance_meta::run::Run;

fn cv(s: &str) -> Vec<char> {
    s.chars().collect()
}

#[test]
fn lines_of_empty_text() {
    assert_eq!(manifest_lines(&cv("")), Vec::<Vec<char>>::new());
}

#[test]
fn lines_split_on_newlines_in_file_order() {
    assert_eq!(
        manifest_lines(&cv("https://a.example\nhttps://b.example\nhttps://c.example\n")),
        vec![
            cv("https://a.example"),
            cv("https://b.example"),
            cv("https://c.example")
        ]
    );
}

#[test]
fn last_line_without_newline_is_kept() {
    assert_eq!(
        manifest_lines(&cv("one\ntwo")),
        vec![cv("one"), cv("two")]
    );
}

#[test]
fn crlf_line_endings_are_stripped() {
    assert_eq!(
        manifest_lines(&cv("one\r\ntwo\r\n")),
        vec![cv("one"), cv("two")]
    );
}

#[test]
fn empty_lines_are_kept_verbatim() {
    assert_eq!(
        manifest_lines(&cv("one\n\ntwo\n")),
        vec![cv("one"), cv(""), cv("two")]
    );
}

#[test]
fn whitespace_in_lines_is_passed_through() {
    assert_eq!(
        manifest_lines(&cv("  spaced \nplain\n")),
        vec![cv("  spaced "), cv("plain")]
    );
}

#[test]
fn a_fresh_run_has_fetched_nothing() {
    let run = Run::start(&cv("https://a.example\n"));
    assert_eq!(run.done, 0);
    assert_eq!(run.ok_count, 0);
    assert_eq!(run.err_count, 0);
    assert!(!run.finished());
}

#[test]
fn run_visits_every_line_once_in_file_order() {
    let mut run = Run::start(&cv("https://a.example\nhttps://b.example\nhttps://c.example\n"));
    let mut visited: Vec<Vec<char>> = Vec::new();
    let mut fetches = 0usize;
    loop {
        let addr = match run.next_address() {
            Some(a) => a.clone(),
            None => break,
        };
        visited.push(addr);
        fetches += 1;
        run.record(true);
    }
    assert_eq!(fetches, 3);
    assert_eq!(
        visited,
        vec![
            cv("https://a.example"),
            cv("https://b.example"),
            cv("https://c.example")
        ]
    );
    assert!(run.finished());
}

#[test]
fn a_failed_fetch_does_not_halt_the_lines_after_it() {
    // First address answers well, second fails: both are processed, the
    // run finishes, and the counts tell one success and one failure apart.
    let mut run = Run::start(&cv("https://good.example\nhttps://bad.example\n"));

    let first = run.next_address().unwrap().clone();
    assert_eq!(first, cv("https://good.example"));
    run.record(true);

    let second = run.next_address().unwrap().clone();
    assert_eq!(second, cv("https://bad.example"));
    run.record(false);

    assert!(run.finished());
    assert_eq!(run.next_address(), None);
    assert_eq!(run.done, 2);
    assert_eq!(run.ok_count, 1);
    assert_eq!(run.err_count, 1);
}


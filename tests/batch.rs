use kickstart_vm::batch::{merge_arguments, parse_global_options, trim_str};
use kickstart_vm::{BatchAction, BatchRun};

fn strings(v: &[&str]) -> Vec<String> {
    v.iter().map(|s| s.to_string()).collect()
}

#[test]
fn global_options_trimmed_and_blank_lines_dropped() {
    let text = "  main \n\nrun-all\r\n\t--iso\n   \n/x.iso";
    assert_eq!(parse_global_options(text), strings(&["main", "run-all", "--iso", "/x.iso"]));
    assert!(parse_global_options("").is_empty());
    assert_eq!(parse_global_options("a\n"), strings(&["a"]));
}

#[test]
fn trim_unicode_space() {
    assert_eq!(trim_str("\u{3000} a b\u{a0}\n"), "a b");
    assert_eq!(trim_str("   "), "");
}

#[test]
fn merged_arguments_global_first() {
    let g = strings(&["main", "run-all"]);
    let f = strings(&["--vm-name", "x"]);
    assert_eq!(merge_arguments(&g, &f), strings(&["main", "run-all", "--vm-name", "x"]));
}

fn run_batch(outcomes: &[bool], rows: usize) -> (Vec<usize>, BatchAction) {
    let fragments: Vec<Vec<String>> = (0..rows).map(|i| vec![format!("--row{}", i)]).collect();
    let mut batch = BatchRun::new(strings(&["main"]), fragments);
    let mut attempted = Vec::new();
    loop {
        match batch.next_action() {
            BatchAction::Run(i, args) => {
                assert_eq!(args, vec!["main".to_string(), format!("--row{}", i)]);
                attempted.push(i);
                batch.record(outcomes[i]);
            }
            other => return (attempted, other),
        }
    }
}

#[test]
fn batch_stops_at_failing_row() {
    let (attempted, end) = run_batch(&[true, true, false, true, true], 5);
    assert_eq!(attempted, vec![0, 1, 2]);
    assert!(matches!(end, BatchAction::Aborted(2)));
}

#[test]
fn batch_all_rows_succeed() {
    let (attempted, end) = run_batch(&[true, true, true], 3);
    assert_eq!(attempted, vec![0, 1, 2]);
    assert!(matches!(end, BatchAction::Finished));
    let (attempted, end) = run_batch(&[], 0);
    assert!(attempted.is_empty());
    assert!(matches!(end, BatchAction::Finished));
}

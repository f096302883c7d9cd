use plugin_host::report::completion_block;
use plugin_host::report::error_line;
use plugin_host::report::info_line;
use plugin_host::report::run_invocation;

#[test]
fn log_lines_carry_their_prefixes() {
    assert_eq!(info_line("hello"), "[INFO] hello");
    assert_eq!(error_line("hello"), "[ERR!] hello");
    assert_eq!(info_line(""), "[INFO] ");
}

#[test]
fn zero_match_invocation_logs_an_error_and_stays_alive() {
    let out = run_invocation("qqq");
    assert!(out.completions.is_empty());
    assert_eq!(
        out.logs,
        vec![
            String::from("[INFO] Checking 8 strings"),
            String::from("[ERR!] No matches found!"),
        ]
    );
    let block = completion_block(&out.completions);
    assert_eq!(
        block,
        vec![
            String::from("AUTOCOMPLETIONS ====================="),
            String::from("====================================="),
        ]
    );
}

#[test]
fn matching_invocation_logs_only_the_info_line() {
    let out = run_invocation("wa");
    assert_eq!(out.logs, vec![String::from("[INFO] Checking 8 strings")]);
    assert_eq!(
        out.completions,
        vec![
            String::from("Wasm"),
            String::from("WASI"),
            String::from("WasmTime"),
            String::from("Software"),
        ]
    );
}

#[test]
fn completion_block_frames_each_suggestion() {
    let suggestions = vec![String::from("Wasm"), String::from("Rust")];
    assert_eq!(
        completion_block(&suggestions),
        vec![
            String::from("AUTOCOMPLETIONS ====================="),
            String::from("Wasm"),
            String::from("Rust"),
            String::from("====================================="),
        ]
    );
}

use commr::comm;
use commr::config::{get_args, validate, Args, CommError, Config};

fn strings(items: &[&str]) -> Vec<String> {
    items.iter().map(|s| s.to_string()).collect()
}

fn default_config() -> Config {
    Config {
        file1: "file1.txt".to_string(),
        file2: "file2.txt".to_string(),
        show_col1: true,
        show_col2: true,
        show_col3: true,
        insensitive: false,
        delimiter: "\t".to_string(),
    }
}

#[test]
fn scenario_default_flags() {
    let lines1 = strings(&["apple", "banana"]);
    let lines2 = strings(&["banana", "cherry"]);
    let out = comm(&lines1, &lines2, &default_config());
    assert_eq!(out, strings(&["apple", "\t\tbanana", "\tcherry"]));
}

#[test]
fn scenario_suppress_col1_col2() {
    let mut config = default_config();
    config.show_col1 = false;
    config.show_col2 = false;
    let lines1 = strings(&["x"]);
    let lines2 = strings(&["x"]);
    let out = comm(&lines1, &lines2, &config);
    assert_eq!(out, strings(&["x"]));
}

#[test]
fn scenario_both_stdin_rejected() {
    let mut config = default_config();
    config.file1 = "-".to_string();
    config.file2 = "-".to_string();
    let r = validate(&config);
    assert_eq!(r, Err(CommError::BothStdin));
    assert_eq!(
        r.unwrap_err().message(),
        "Both input files cannot be STDIN (\"-\")"
    );
}

#[test]
fn single_stdin_accepted() {
    let mut config = default_config();
    config.file1 = "-".to_string();
    assert_eq!(validate(&config), Ok(()));
    config.file1 = "file1.txt".to_string();
    config.file2 = "-".to_string();
    assert_eq!(validate(&config), Ok(()));
    config.file2 = "file2.txt".to_string();
    assert_eq!(validate(&config), Ok(()));
}

#[test]
fn scenario_empty_first_input() {
    let lines1 = strings(&[]);
    let lines2 = strings(&["a", "b"]);
    let out = comm(&lines1, &lines2, &default_config());
    assert_eq!(out, strings(&["\ta", "\tb"]));
}

#[test]
fn scenario_case_insensitive_common() {
    let mut config = default_config();
    config.insensitive = true;
    let lines1 = strings(&["A"]);
    let lines2 = strings(&["a"]);
    let out = comm(&lines1, &lines2, &config);
    assert_eq!(out, strings(&["\t\ta"]));
}

#[test]
fn case_sensitive_keeps_variants_apart() {
    let lines1 = strings(&["A"]);
    let lines2 = strings(&["a"]);
    let out = comm(&lines1, &lines2, &default_config());
    assert_eq!(out, strings(&["A", "\ta"]));
}

#[test]
fn folding_applies_to_whole_lines() {
    let mut config = default_config();
    config.insensitive = true;
    let lines1 = strings(&["APPLE"]);
    let lines2 = strings(&["apple"]);
    let out = comm(&lines1, &lines2, &config);
    assert_eq!(out, strings(&["\t\tapple"]));
}

#[test]
fn custom_delimiter() {
    let mut config = default_config();
    config.delimiter = ", ".to_string();
    let lines1 = strings(&["a", "b"]);
    let lines2 = strings(&["b", "c"]);
    let out = comm(&lines1, &lines2, &config);
    assert_eq!(out, strings(&["a", ", , b", ", c"]));
}

#[test]
fn suppressed_category_emits_nothing() {
    let mut config = default_config();
    config.show_col3 = false;
    let lines1 = strings(&["x"]);
    let lines2 = strings(&["x"]);
    let out = comm(&lines1, &lines2, &config);
    assert_eq!(out, Vec::<String>::new());
}

#[test]
fn suppress_col1_drops_pad_and_rows() {
    let mut config = default_config();
    config.show_col1 = false;
    let lines1 = strings(&["a"]);
    let lines2 = strings(&["b"]);
    let out = comm(&lines1, &lines2, &config);
    assert_eq!(out, strings(&["b"]));
}

#[test]
fn both_inputs_empty() {
    let lines1 = strings(&[]);
    let lines2 = strings(&[]);
    let out = comm(&lines1, &lines2, &default_config());
    assert_eq!(out, Vec::<String>::new());
}

#[test]
fn duplicate_lines_keep_multiplicity() {
    let lines1 = strings(&["a", "a"]);
    let lines2 = strings(&["a"]);
    let out = comm(&lines1, &lines2, &default_config());
    assert_eq!(out, strings(&["\t\ta", "a"]));
}

#[test]
fn running_twice_gives_identical_output() {
    let lines1 = strings(&["apple", "banana"]);
    let lines2 = strings(&["banana", "cherry"]);
    let config = default_config();
    let first = comm(&lines1, &lines2, &config);
    let second = comm(&lines1, &lines2, &config);
    assert_eq!(first, second);
}

#[test]
fn get_args_inverts_suppression_flags() {
    let args = Args {
        file1: "one".to_string(),
        file2: "two".to_string(),
        suppress_col1: true,
        suppress_col2: false,
        suppress_col3: true,
        insensitive: true,
        delimiter: "|".to_string(),
    };
    let config = get_args(args);
    assert_eq!(config.file1, "one");
    assert_eq!(config.file2, "two");
    assert!(!config.show_col1);
    assert!(config.show_col2);
    assert!(!config.show_col3);
    assert!(config.insensitive);
    assert_eq!(config.delimiter, "|");
}

#[test]
fn unequal_lengths_tail_is_classified() {
    let lines1 = strings(&["a", "b", "c"]);
    let lines2 = strings(&["b"]);
    let out = comm(&lines1, &lines2, &default_config());
    assert_eq!(out, strings(&["a", "\t\tb", "c"]));
}

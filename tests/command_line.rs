use cjk_font_selector::args::{parse_args, SYSTEM_WIDE_FLAG};

fn strings(args: &[&str]) -> Vec<String> {
    args.iter().map(|a| a.to_string()).collect()
}

#[test]
fn sys_flag_is_removed_before_counting() {
    let inv = parse_args(&strings(&["prog", "--sys", "a", "b", "c"])).unwrap();
    assert!(inv.is_system_wide);
    assert_eq!(inv.sans, "a");
    assert_eq!(inv.serif, "b");
    assert_eq!(inv.monospace, "c");
}

#[test]
fn sys_flag_may_stand_last() {
    let inv = parse_args(&strings(&["prog", "a", "b", "c", "--sys"])).unwrap();
    assert!(inv.is_system_wide);
    assert_eq!((inv.sans.as_str(), inv.serif.as_str(), inv.monospace.as_str()), ("a", "b", "c"));
}

#[test]
fn sys_flag_repeated_counts_once() {
    let inv = parse_args(&strings(&["prog", "--sys", "a", "--sys", "b", "c"])).unwrap();
    assert!(inv.is_system_wide);
    assert_eq!((inv.sans.as_str(), inv.serif.as_str(), inv.monospace.as_str()), ("a", "b", "c"));
}

#[test]
fn without_flag_the_run_is_per_user() {
    let inv = parse_args(&strings(&["prog", "x", "y", "z"])).unwrap();
    assert!(!inv.is_system_wide);
    assert_eq!((inv.sans.as_str(), inv.serif.as_str(), inv.monospace.as_str()), ("x", "y", "z"));
}

#[test]
fn too_few_arguments_are_refused() {
    let e = parse_args(&strings(&["prog", "a", "b"])).unwrap_err();
    assert_eq!(e.supplied, 3);
}

#[test]
fn too_many_arguments_are_refused_after_the_flag_is_removed() {
    let e = parse_args(&strings(&["prog", "--sys", "a", "b", "c", "d"])).unwrap_err();
    assert_eq!(e.supplied, 5);
}

#[test]
fn empty_command_line_is_refused() {
    let e = parse_args(&Vec::new()).unwrap_err();
    assert_eq!(e.supplied, 0);
}

#[test]
fn flag_alone_leaves_only_the_program_name() {
    let e = parse_args(&strings(&["prog", SYSTEM_WIDE_FLAG])).unwrap_err();
    assert_eq!(e.supplied, 1);
}

#[test]
fn similar_flags_are_positional() {
    let inv = parse_args(&strings(&["prog", "--sys=1", "-sys", "--SYS"])).unwrap();
    assert!(!inv.is_system_wide);
    assert_eq!(inv.sans, "--sys=1");
    assert_eq!(inv.serif, "-sys");
    assert_eq!(inv.monospace, "--SYS");
}

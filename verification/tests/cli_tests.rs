use truthbyte::cli::{parse_cli_args, parse_u64, CliCommand};
use truthbyte::decimal::u64_to_decimal;

fn args(list: &[&str]) -> Vec<String> {
    list.iter().map(|s| s.to_string()).collect()
}

#[test]
fn parse_u64_accepts_plain_and_signed_decimals() {
    assert_eq!(parse_u64("0"), Some(0));
    assert_eq!(parse_u64("1024"), Some(1024));
    assert_eq!(parse_u64("+5"), Some(5));
    assert_eq!(parse_u64("18446744073709551615"), Some(u64::MAX));
}

#[test]
fn parse_u64_rejects_malformed_and_overflowing_input() {
    assert_eq!(parse_u64(""), None);
    assert_eq!(parse_u64("+"), None);
    assert_eq!(parse_u64("-3"), None);
    assert_eq!(parse_u64("12a"), None);
    assert_eq!(parse_u64(" 12"), None);
    assert_eq!(parse_u64("18446744073709551616"), None);
}

#[test]
fn decimal_rendering_is_exact() {
    assert_eq!(u64_to_decimal(0), "0");
    assert_eq!(u64_to_decimal(7), "7");
    assert_eq!(u64_to_decimal(1234567890), "1234567890");
    assert_eq!(u64_to_decimal(u64::MAX), "18446744073709551615");
}

#[test]
fn too_few_arguments_show_usage() {
    assert!(matches!(
        parse_cli_args(&args(&["truthbyte"])),
        CliCommand::ShowUsage
    ));
}

#[test]
fn target_alone_runs_unbounded() {
    match parse_cli_args(&args(&["truthbyte", "/tmp/x.dat"])) {
        CliCommand::Run {
            file_path,
            limit_mb,
            force,
        } => {
            assert_eq!(file_path, "/tmp/x.dat");
            assert_eq!(limit_mb, 0);
            assert!(!force);
        }
        _ => panic!("run expected"),
    }
}

#[test]
fn limit_and_force_flags_are_recognized() {
    match parse_cli_args(&args(&["truthbyte", "x.dat", "1024", "--force"])) {
        CliCommand::Run {
            file_path,
            limit_mb,
            force,
        } => {
            assert_eq!(file_path, "x.dat");
            assert_eq!(limit_mb, 1024);
            assert!(force);
        }
        _ => panic!("run expected"),
    }
    match parse_cli_args(&args(&["truthbyte", "x.dat", "-f", "8"])) {
        CliCommand::Run {
            limit_mb, force, ..
        } => {
            assert_eq!(limit_mb, 8);
            assert!(force);
        }
        _ => panic!("run expected"),
    }
}

#[test]
fn extra_positional_argument_is_rejected() {
    match parse_cli_args(&args(&["truthbyte", "x.dat", "8", "9"])) {
        CliCommand::UnexpectedArg(arg) => assert_eq!(arg, "9"),
        _ => panic!("unexpected-argument error expected"),
    }
}

#[test]
fn malformed_limit_is_rejected() {
    match parse_cli_args(&args(&["truthbyte", "x.dat", "lots"])) {
        CliCommand::InvalidLimit(arg) => assert_eq!(arg, "lots"),
        _ => panic!("invalid-limit error expected"),
    }
}

use cachesweep::size::{parse_docker_size, parse_docker_volume_size};

#[test]
fn zero_tokens_are_zero() {
    assert_eq!(parse_docker_size("0B"), Some(0));
    assert_eq!(parse_docker_size("0"), Some(0));
}

#[test]
fn fractional_megabytes() {
    assert_eq!(parse_docker_size("1.5MB"), Some(1572864));
}

#[test]
fn whole_gigabytes() {
    assert_eq!(parse_docker_size("2GB"), Some(2147483648));
}

#[test]
fn unreadable_size_is_none() {
    assert_eq!(parse_docker_size("bogus"), None);
}

#[test]
fn each_unit_multiplies() {
    assert_eq!(parse_docker_size("7B"), Some(7));
    assert_eq!(parse_docker_size("512KB"), Some(524288));
    assert_eq!(parse_docker_size("3MB"), Some(3145728));
    assert_eq!(parse_docker_size("1TB"), Some(1099511627776));
}

#[test]
fn units_in_any_case() {
    assert_eq!(parse_docker_size("10kB"), Some(10240));
    assert_eq!(parse_docker_size("1mb"), Some(1048576));
    assert_eq!(parse_docker_size("2Gb"), Some(2147483648));
}

#[test]
fn products_round_down() {
    assert_eq!(parse_docker_size("1.2MB"), Some(1258291));
    assert_eq!(parse_docker_size("0.1KB"), Some(102));
    assert_eq!(parse_docker_size("0.5B"), Some(0));
}

#[test]
fn whitespace_and_spaces() {
    assert_eq!(parse_docker_size("  10 kB \n"), Some(10240));
    assert_eq!(parse_docker_size("\t0B "), Some(0));
    assert_eq!(parse_docker_size("0 B"), Some(0));
}

#[test]
fn numeral_forms() {
    assert_eq!(parse_docker_size(".5KB"), Some(512));
    assert_eq!(parse_docker_size("5.KB"), Some(5120));
    assert_eq!(parse_docker_size("+2B"), Some(2));
    assert_eq!(parse_docker_size("-1MB"), Some(0));
}

#[test]
fn malformed_sizes_are_none() {
    assert_eq!(parse_docker_size(""), None);
    assert_eq!(parse_docker_size("100"), None);
    assert_eq!(parse_docker_size("1.5"), None);
    assert_eq!(parse_docker_size(".KB"), None);
    assert_eq!(parse_docker_size("1.2.3MB"), None);
    assert_eq!(parse_docker_size("1e3MB"), None);
    assert_eq!(parse_docker_size("5PB"), None);
    assert_eq!(parse_docker_size("5MiB"), None);
    assert_eq!(parse_docker_size("0B (virtual 1GB)"), None);
}

#[test]
fn huge_sizes_saturate() {
    assert_eq!(parse_docker_size("99999999999999999999TB"), Some(u64::MAX));
    assert_eq!(parse_docker_size("18446744073709551615B"), Some(u64::MAX));
    assert_eq!(parse_docker_size("18446744073709551614B"), Some(u64::MAX - 1));
}

#[test]
fn local_volumes_row_is_read() {
    assert_eq!(parse_docker_volume_size("Local Volumes\t3\t10MB\t4MB"), Some(4194304));
}

#[test]
fn report_without_local_volumes_is_none() {
    let report = "TYPE\tTOTAL\tSIZE\tRECLAIMABLE\nImages\t5\t1GB\t500MB\nContainers\t2\t0B\t0B\n";
    assert_eq!(parse_docker_volume_size(report), None);
    assert_eq!(parse_docker_volume_size(""), None);
}

#[test]
fn local_volumes_among_other_rows() {
    let report = "TYPE\tTOTAL\tSIZE\tRECLAIMABLE\r\nImages\t5\t1GB\t500MB\r\n  Local Volumes \t3\t10MB\t 2GB \r\n";
    assert_eq!(parse_docker_volume_size(report), Some(2147483648));
}

#[test]
fn first_local_volumes_row_decides() {
    let report = "Local Volumes\t1\t1MB\tnone\nLocal Volumes\t1\t1MB\t1MB\n";
    assert_eq!(parse_docker_volume_size(report), None);
}

#[test]
fn short_rows_are_passed_over() {
    let report = "Local Volumes\t3\t10MB\nLocal Volumes\t3\t10MB\t1KB\n";
    assert_eq!(parse_docker_volume_size(report), Some(1024));
}

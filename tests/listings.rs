use cachesweep::runtime::{
    build_cache_records, container_records, image_records, volume_names, volume_records,
    volume_size, FALLBACK_VOLUME_SIZE,
};

#[test]
fn stopped_containers_with_size() {
    let listing = "abc123,web,12MB\ndef456,db,0B\nbad-row\nfff000,cache,1KB (virtual 2GB)\n";
    let records = container_records(listing);
    assert_eq!(records.len(), 1);
    assert_eq!(records[0].path, "docker://container/abc123");
    assert_eq!(records[0].size, 12582912);
    assert_eq!(records[0].file_type, "docker_container");
    assert!(records[0].can_delete);
}

#[test]
fn dangling_images_with_size() {
    let listing = "sha1,5MB\nsha2,0B\nsha3,1.5KB\n";
    let records = image_records(listing);
    assert_eq!(records.len(), 2);
    assert_eq!(records[0].path, "docker://image/sha1");
    assert_eq!(records[0].size, 5242880);
    assert_eq!(records[1].path, "docker://image/sha3");
    assert_eq!(records[1].size, 1536);
    assert_eq!(records[1].file_type, "docker_image");
}

#[test]
fn empty_listings_give_nothing() {
    assert!(container_records("").is_empty());
    assert!(image_records("").is_empty());
    assert!(volume_names("").is_empty());
    assert!(build_cache_records("").is_empty());
}

#[test]
fn volume_names_are_trimmed() {
    let names = volume_names("vol1\n   \n vol2 \r\n");
    assert_eq!(names, vec!["vol1".to_string(), "vol2".to_string()]);
}

#[test]
fn volume_size_from_report_or_fallback() {
    assert_eq!(volume_size(Some("Local Volumes\t2\t1GB\t2MB")), 2097152);
    assert_eq!(volume_size(Some("Images\t2\t1GB\t2MB")), FALLBACK_VOLUME_SIZE);
    assert_eq!(volume_size(None), 1048576);
}

#[test]
fn every_volume_gets_the_aggregate_size() {
    let names = vec!["a".to_string(), "b".to_string()];
    let records = volume_records(&names, 4194304);
    assert_eq!(records.len(), 2);
    assert_eq!(records[0].path, "docker://volume/a");
    assert_eq!(records[1].path, "docker://volume/b");
    assert_eq!(records[0].size, 4194304);
    assert_eq!(records[1].size, 4194304);
    assert_eq!(records[1].file_type, "docker_volume");
}

#[test]
fn build_cache_record_when_reclaimable() {
    let report = "TYPE\tTOTAL\tSIZE\tRECLAIMABLE\nImages\t5\t1GB\t500MB\nBuild Cache\t10\t1GB\t512MB\n";
    let records = build_cache_records(report);
    assert_eq!(records.len(), 1);
    assert_eq!(records[0].path, "docker://cache/build");
    assert_eq!(records[0].size, 536870912);
    assert_eq!(records[0].file_type, "docker_cache");
}

#[test]
fn no_build_cache_record_when_nothing_reclaimable() {
    assert!(build_cache_records("Build Cache\t0\t0B\t0B\n").is_empty());
    assert!(build_cache_records("Build Cache\t0\t0B\t0\n").is_empty());
    assert!(build_cache_records("Build Cache\t0\t0B\tunknown\n").is_empty());
}

#[test]
fn later_build_cache_row_counts() {
    let records = build_cache_records("Build Cache\t1\t1\t0B\nBuild Cache\t1\t1\t1B\n");
    assert_eq!(records.len(), 1);
    assert_eq!(records[0].size, 1);
    assert_eq!(records[0].path, "docker://cache/build");
}

#[test]
fn one_build_cache_record_at_most() {
    let records = build_cache_records("Build Cache\t1\t1\t2KB\nBuild Cache\t1\t1\t3KB\n");
    assert_eq!(records.len(), 1);
    assert_eq!(records[0].size, 2048);
}

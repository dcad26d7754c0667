use cachesweep::locator::{decode_locator, removal_args, Locator, ResourceKind};
use cachesweep::reclaim::{
    plan_step, reclaim_outcome, CleaningResult, ItemReport, Step, REMOVED_RESOURCE_ESTIMATE,
};

fn strings(v: &[&str]) -> Vec<String> {
    v.iter().map(|s| s.to_string()).collect()
}

#[test]
fn missing_locator_is_skipped() {
    let locators = strings(&["/c/one", "/c/two", "/c/three"]);
    let reports = vec![
        ItemReport::Deleted { measured: Some(100) },
        ItemReport::Missing,
        ItemReport::Deleted { measured: Some(250) },
    ];
    let out = reclaim_outcome(&locators, &reports, 7);
    assert_eq!(out.files_deleted, 2);
    assert!(out.errors.is_empty());
    assert_eq!(out.space_freed, 350);
    assert_eq!(out.duration, 7);
}

#[test]
fn permission_failure_is_recorded() {
    let locators = strings(&["/c/locked"]);
    let reports = vec![ItemReport::NotDeleted {
        measured: Some(40),
        cause: "Permission denied (os error 13)".to_string(),
    }];
    let out = reclaim_outcome(&locators, &reports, 0);
    assert_eq!(out.files_deleted, 0);
    assert_eq!(out.errors.len(), 1);
    assert!(out.errors[0].contains("/c/locked"));
    assert_eq!(out.errors[0], "Failed to delete /c/locked: Permission denied (os error 13)");
    assert_eq!(out.space_freed, 40);
}

#[test]
fn failure_does_not_stop_the_batch() {
    let locators = strings(&["/a", "/b", "/c"]);
    let reports = vec![
        ItemReport::NotDeleted { measured: None, cause: "busy".to_string() },
        ItemReport::Deleted { measured: None },
        ItemReport::Deleted { measured: Some(5) },
    ];
    let out = reclaim_outcome(&locators, &reports, 1);
    assert_eq!(out.files_deleted, 2);
    assert_eq!(out.space_freed, 5);
    assert_eq!(out.errors, vec!["Failed to delete /a: busy".to_string()]);
}

#[test]
fn runtime_removals_count_the_estimate() {
    let locators = strings(&[
        "docker://container/abc",
        "docker://image/def",
        "docker://volume/v1",
        "docker://network/n1",
        "docker://cache/build",
        "/not/a/resource",
    ]);
    let reports = vec![
        ItemReport::Removed,
        ItemReport::Refused { stderr: "image is in use".to_string() },
        ItemReport::Unlaunched { cause: "not found".to_string() },
        ItemReport::UnknownKind { kind: "network".to_string() },
        ItemReport::Removed,
        ItemReport::Ignored,
    ];
    let out = reclaim_outcome(&locators, &reports, 3);
    assert_eq!(out.files_deleted, 2);
    assert_eq!(out.space_freed, 2 * REMOVED_RESOURCE_ESTIMATE);
    assert_eq!(out.space_freed, 20971520);
    assert_eq!(
        out.errors,
        vec![
            "Failed to remove docker://image/def: image is in use".to_string(),
            "Failed to execute Docker command for docker://volume/v1: not found".to_string(),
            "Unknown Docker resource type: network".to_string(),
        ]
    );
}

#[test]
fn empty_batch() {
    let out = reclaim_outcome(&Vec::new(), &Vec::new(), 0);
    assert_eq!(out.files_deleted, 0);
    assert_eq!(out.space_freed, 0);
    assert!(out.errors.is_empty());
}

#[test]
fn freed_bytes_saturate() {
    let locators = strings(&["/a", "/b"]);
    let reports = vec![
        ItemReport::Deleted { measured: Some(u64::MAX - 1) },
        ItemReport::Deleted { measured: Some(10) },
    ];
    let out = reclaim_outcome(&locators, &reports, 0);
    assert_eq!(out.space_freed, u64::MAX);
    assert_eq!(out.files_deleted, 2);
}

#[test]
fn record_one_at_a_time() {
    let mut out = CleaningResult::new();
    out.record("/x", &ItemReport::Deleted { measured: Some(9) });
    out.record("/y", &ItemReport::Missing);
    assert_eq!(out.files_deleted, 1);
    assert_eq!(out.space_freed, 9);
    assert_eq!(out.duration, 0);
}

#[test]
fn locators_decode() {
    assert_eq!(
        decode_locator("docker://container/abc"),
        Locator::Resource { kind: ResourceKind::Container, id: "abc".to_string() }
    );
    assert_eq!(
        decode_locator("docker://image/sha256:ff/extra"),
        Locator::Resource { kind: ResourceKind::Image, id: "sha256:ff".to_string() }
    );
    assert_eq!(
        decode_locator("docker://volume/data"),
        Locator::Resource { kind: ResourceKind::Volume, id: "data".to_string() }
    );
    assert_eq!(
        decode_locator("docker://cache/build"),
        Locator::Resource { kind: ResourceKind::Cache, id: "build".to_string() }
    );
    assert_eq!(
        decode_locator("docker://network/n1"),
        Locator::UnknownResource { name: "network".to_string() }
    );
    assert_eq!(decode_locator("docker://container"), Locator::Incomplete);
    assert_eq!(decode_locator("/home/u/.npm"), Locator::Path("/home/u/.npm".to_string()));
    assert_eq!(decode_locator("docker:/x/y"), Locator::Path("docker:/x/y".to_string()));
}

#[test]
fn removal_commands() {
    assert_eq!(removal_args(ResourceKind::Container, "abc"), strings(&["container", "rm", "abc"]));
    assert_eq!(removal_args(ResourceKind::Image, "def"), strings(&["image", "rm", "def"]));
    assert_eq!(removal_args(ResourceKind::Volume, "v1"), strings(&["volume", "rm", "v1"]));
    assert_eq!(removal_args(ResourceKind::Cache, "build"), strings(&["builder", "prune", "-f"]));
}

#[test]
fn steps_by_address_space() {
    assert_eq!(
        plan_step("docker://volume/v1", false),
        Step::RunRuntime { args: strings(&["volume", "rm", "v1"]) }
    );
    assert_eq!(
        plan_step("docker://cache/build", true),
        Step::RunRuntime { args: strings(&["builder", "prune", "-f"]) }
    );
    assert_eq!(
        plan_step("docker://network/n1", false),
        Step::Settled { report: ItemReport::UnknownKind { kind: "network".to_string() } }
    );
    assert_eq!(plan_step("docker://image", true), Step::Settled { report: ItemReport::Ignored });
    assert_eq!(plan_step("/home/u/.npm", false), Step::Settled { report: ItemReport::Ignored });
    assert_eq!(
        plan_step("/home/u/.npm", true),
        Step::DeletePath { path: "/home/u/.npm".to_string() }
    );
}

use orgfiles::ids::Id;
use orgfiles::models::File;
use orgfiles::upload::{file_extension, FileManager, PartPlan, Upload};

const ORG: &str = "6f1c2b3a-0d4e-4f5a-8b6c-7d8e9fa0b1c2";

fn manager(max: u32) -> FileManager {
    FileManager::new("/srv/files".to_string(), "files.example.com".to_string(), max)
}

fn org() -> Id {
    Id::parse(ORG).unwrap()
}

fn id(n: u128) -> Id {
    Id { bits: n }
}

/// Offers one part and, where it is to be stored, reports it written.
fn offer(upload: &mut Upload, name: Option<&str>, n: u128) -> PartPlan {
    let plan = upload.plan_part_with(name.map(|s| s.to_string()), id(n), 1_700_000_000_000_000);
    if let PartPlan::Store { .. } = plan {
        upload.finish_part(true);
    }
    plan
}

fn names(files: &[File]) -> Vec<String> {
    files.iter().map(|f| f.name.clone()).collect()
}

#[test]
fn extension_is_text_after_last_dot() {
    assert_eq!(file_extension("a.png"), Some("png".to_string()));
    assert_eq!(file_extension("archive.tar.gz"), Some("gz".to_string()));
    assert_eq!(file_extension("trailing."), Some(String::new()));
    assert_eq!(file_extension(".hidden"), Some("hidden".to_string()));
    assert_eq!(file_extension("noext"), None);
    assert_eq!(file_extension(""), None);
}

#[test]
fn url_follows_pattern() {
    let m = manager(3);
    let url = m.generate_file_url(org(), id(0xab), "png");
    assert_eq!(
        url,
        format!("http://files.example.com/{}/00000000-0000-0000-0000-0000000000ab.png", ORG)
    );
}

#[test]
fn paths_under_organization_directory() {
    let m = manager(3);
    assert_eq!(m.organization_dir(org()), format!("/srv/files/{}/", ORG));
    assert_eq!(
        m.file_path(org(), id(1), "jpg"),
        format!("/srv/files/{}/00000000-0000-0000-0000-000000000001.jpg", ORG)
    );
}

#[test]
fn end_to_end_example_skips_part_without_extension() {
    let m = manager(3);
    let mut up = m.start_upload(org());
    assert!(matches!(offer(&mut up, Some("a.png"), 1), PartPlan::Store { .. }));
    assert!(matches!(offer(&mut up, Some("noext"), 2), PartPlan::Skip));
    assert!(matches!(offer(&mut up, Some("b.jpg"), 3), PartPlan::Store { .. }));
    let files = up.into_files();
    assert_eq!(names(&files), vec!["a.png".to_string(), "b.jpg".to_string()]);
    assert_eq!(files[0].id, id(1));
    assert_eq!(files[1].id, id(3));
    assert_eq!(files[0].organization_id, org());
    assert_eq!(files[1].url, m.generate_file_url(org(), id(3), "jpg"));
}

#[test]
fn fewer_valid_parts_than_cap_all_recorded() {
    let m = manager(5);
    let mut up = m.start_upload(org());
    for n in 1..=3u128 {
        offer(&mut up, Some(&format!("f{}.txt", n)), n);
    }
    let files = up.into_files();
    assert_eq!(files.len(), 3);
    for (i, f) in files.iter().enumerate() {
        let n = i as u128 + 1;
        assert_eq!(f.id, id(n));
        assert_eq!(f.url, format!("http://files.example.com/{}/{}.txt", ORG, id(n).to_text()));
    }
    assert_ne!(files[0].id, files[1].id);
}

#[test]
fn cap_stops_upload() {
    let m = manager(2);
    let mut up = m.start_upload(org());
    offer(&mut up, Some("a.png"), 1);
    assert!(!up.is_full());
    offer(&mut up, Some("b.png"), 2);
    assert!(up.is_full());
    assert!(matches!(offer(&mut up, Some("c.png"), 3), PartPlan::Stop));
    let files = up.into_files();
    assert_eq!(names(&files), vec!["a.png".to_string(), "b.png".to_string()]);
}

#[test]
fn skipped_parts_do_not_count_toward_cap() {
    let m = manager(2);
    let mut up = m.start_upload(org());
    assert!(matches!(offer(&mut up, None, 1), PartPlan::Skip));
    assert!(matches!(offer(&mut up, Some("noext"), 2), PartPlan::Skip));
    offer(&mut up, Some("a.png"), 3);
    assert!(matches!(offer(&mut up, Some("x"), 4), PartPlan::Skip));
    offer(&mut up, Some("b.png"), 5);
    let files = up.into_files();
    assert_eq!(names(&files), vec!["a.png".to_string(), "b.png".to_string()]);
}

#[test]
fn failed_write_leaves_no_record() {
    let m = manager(2);
    let mut up = m.start_upload(org());
    let plan = up.plan_part_with(Some("a.png".to_string()), id(1), 0);
    assert!(matches!(plan, PartPlan::Store { .. }));
    assert!(up.is_busy());
    up.finish_part(false);
    assert!(!up.is_busy());
    offer(&mut up, Some("b.png"), 2);
    let files = up.into_files();
    assert_eq!(names(&files), vec!["b.png".to_string()]);
}

#[test]
fn store_plan_names_directory_and_path() {
    let m = manager(1);
    let mut up = m.start_upload(org());
    match up.plan_part_with(Some("photo.jpeg".to_string()), id(7), 0) {
        PartPlan::Store { directory, path } => {
            assert_eq!(directory, m.organization_dir(org()));
            assert_eq!(path, m.file_path(org(), id(7), "jpeg"));
        }
        other => panic!("unexpected plan {:?}", other),
    }
}

#[test]
fn random_identifiers_are_version_four_and_distinct() {
    let m = manager(3);
    let mut up = m.start_upload(org());
    for name in ["a.png", "b.png"] {
        if let PartPlan::Store { .. } = up.plan_part(Some(name.to_string())) {
            up.finish_part(true);
        }
    }
    let files = up.into_files();
    assert_eq!(files.len(), 2);
    assert_ne!(files[0].id, files[1].id);
    assert_eq!((files[0].id.bits >> 76) & 0xf, 4);
}

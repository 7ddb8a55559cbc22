use csx::project::{ProjectManifestComponentField, ProjectManifestData};

#[test]
fn project_manifest() {
    let a = ProjectManifestComponentField::new("components/a.yaml", None);
    let mut p = ProjectManifestData::new("sample", "v1", &[a]);
    assert_eq!(p.label, "sample");
    assert_eq!(p.version, "v1");
    p.add_components(&[ProjectManifestComponentField::new("components/b.yaml", Some("id".to_string()))]).unwrap();
    let paths: Vec<&str> = p.components.iter().map(|c| c.component_path.as_str()).collect();
    assert_eq!(paths, vec!["components/a.yaml", "components/b.yaml"]);
}

#[test]
fn manifest_locations() {
    let a = ProjectManifestComponentField::new("components/sample_lens.yaml", None);
    assert_eq!(
        a.manifest_location("/work/pj"),
        ("/work/pj/components/sample_lens.yaml".to_string(), "sample_lens".to_string())
    );
    assert_eq!(
        a.try_manifest_location("."),
        Some(("./components/sample_lens.yaml".to_string(), "sample_lens".to_string()))
    );
    let dots = ProjectManifestComponentField::new("..", None);
    assert_eq!(dots.try_manifest_location("/x"), None);
}

use kubit_core::error::Error;
use kubit_core::package::{Metadata, PackageConfig};

fn config(schema: Option<&str>, images: Option<&[&str]>) -> PackageConfig {
    PackageConfig {
        schema: schema.map(|s| s.to_string()),
        images: images.map(|v| v.iter().map(|s| s.to_string()).collect()),
    }
}

#[test]
fn schema_without_images() {
    let c = config(Some("{\"type\":\"object\"}"), None);
    assert_eq!(c.schema(), Ok("{\"type\":\"object\"}".to_string()));
    assert_eq!(c.images(), Err(Error::ImagesMissing));
}

#[test]
fn images_without_schema() {
    let c = config(None, Some(&["nginx:1.25", "redis:7"]));
    assert_eq!(c.schema(), Err(Error::SchemaMissing));
    assert_eq!(c.images(), Ok(vec!["nginx:1.25".to_string(), "redis:7".to_string()]));
}

#[test]
fn images_output_one_per_line_in_order() {
    let c = config(Some("{}"), Some(&["b/img:2", "a/img:1"]));
    let op = Metadata::Images { app_instance: "app.yaml".to_string(), allow_anonymous: false };
    assert_eq!(op.output_lines(&c), Ok(vec!["b/img:2".to_string(), "a/img:1".to_string()]));
}

#[test]
fn schema_output_is_the_schema() {
    let c = config(Some("{}"), None);
    let op = Metadata::Schema { app_instance: "app.yaml".to_string(), allow_anonymous: true };
    assert_eq!(op.output_lines(&c), Ok(vec!["{}".to_string()]));
}

#[test]
fn images_output_fails_without_list() {
    let c = config(Some("{}"), None);
    let op = Metadata::Images { app_instance: "app.yaml".to_string(), allow_anonymous: true };
    assert_eq!(op.output_lines(&c), Err(Error::ImagesMissing));
}

#[test]
fn metadata_accessors() {
    let op = Metadata::Schema { app_instance: "x.yaml".to_string(), allow_anonymous: true };
    assert_eq!(op.app_instance(), "x.yaml");
    assert!(op.allow_anonymous());
    let op = Metadata::Images { app_instance: "y.yaml".to_string(), allow_anonymous: false };
    assert_eq!(op.app_instance(), "y.yaml");
    assert!(!op.allow_anonymous());
}

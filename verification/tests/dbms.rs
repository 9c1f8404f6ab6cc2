use dbms_upended::dbms::format::versions::v3::DBFormatV3;
use dbms_upended::dbms::{root_step, RootLookup, RootStep, DBMS};
use std::path::PathBuf;

fn schema(n: usize) -> DBFormatV3 {
    DBFormatV3 {
        tables: (0..n)
            .map(|i| {
                (
                    format!("t{i}"),
                    dbms_upended::dbms::format::versions::v3::TableFormatV3 {
                        cols: vec![],
                        indexes: vec![],
                    },
                )
            })
            .collect(),
    }
}

#[test]
fn new_dbms_has_no_schema() {
    let dbms = DBMS::with_root(PathBuf::from("/data"));
    assert_eq!(dbms.root(), &PathBuf::from("/data"));
    assert!(format!("{:?}", dbms).contains("root: \"/data\""));
    assert!(dbms.save_schemas().is_empty());
}

#[test]
fn each_schema_is_saved_under_its_database_name() {
    let mut dbms = DBMS::with_root(PathBuf::from("/data"));
    dbms.insert_schema("shop".to_string(), schema(1));
    dbms.insert_schema("blog".to_string(), schema(2));
    let plan = dbms.save_schemas();
    assert_eq!(plan.len(), 2);
    assert_eq!(plan[0].0, "shop");
    assert_eq!(plan[0].1.tables.len(), 1);
    assert_eq!(plan[1].0, "blog");
    assert_eq!(plan[1].1.tables.len(), 2);
}

#[test]
fn inserting_a_schema_again_replaces_it() {
    let mut dbms = DBMS::with_root(PathBuf::from("r"));
    dbms.insert_schema("a".to_string(), schema(1));
    dbms.insert_schema("b".to_string(), schema(2));
    dbms.insert_schema("a".to_string(), schema(3));
    let plan = dbms.save_schemas();
    assert_eq!(plan.len(), 2);
    assert_eq!(plan[0].0, "a");
    assert_eq!(plan[1].0, "b");
    assert_eq!(plan[0].1.tables.len(), 3);
    assert_eq!(plan[1].1.tables.len(), 2);
}

#[test]
fn root_folder_steps() {
    assert_eq!(root_step(RootLookup::Found, false), RootStep::UseRoot);
    assert_eq!(root_step(RootLookup::Found, true), RootStep::UseRoot);
    assert_eq!(root_step(RootLookup::NotFound, true), RootStep::CreateRoot);
    assert_eq!(root_step(RootLookup::NotFound, false), RootStep::RootDoesNotExist);
    assert_eq!(root_step(RootLookup::OtherError, true), RootStep::Fail);
    assert_eq!(root_step(RootLookup::OtherError, false), RootStep::Fail);
}

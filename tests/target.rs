use compository_publish::publisher::{Procedure, PublishError};
use compository_publish::target::{find_cell_for_dna, locate_cell, AppInfo};

fn cells() -> Vec<String> {
    vec!["uhC0kAAA".to_string(), "uhC0kBBB".to_string(), "uhC0kBBB".to_string()]
}

#[test]
fn finds_first_matching_cell() {
    assert_eq!(find_cell_for_dna(&"uhC0kBBB".to_string(), &cells()), Ok(1));
    assert_eq!(find_cell_for_dna(&"uhC0kAAA".to_string(), &cells()), Ok(0));
}

#[test]
fn missing_cell_is_not_found() {
    assert_eq!(
        find_cell_for_dna(&"uhC0kCCC".to_string(), &cells()),
        Err(PublishError::CellNotFound("uhC0kCCC".to_string()))
    );
    assert_eq!(
        find_cell_for_dna(&"uhC0kCCC".to_string(), &vec![]),
        Err(PublishError::CellNotFound("uhC0kCCC".to_string()))
    );
}

#[test]
fn locate_cell_outcomes() {
    let app = "my-app".to_string();
    let dna = "uhC0kBBB".to_string();
    assert_eq!(locate_cell(AppInfo::Found(cells()), &app, &dna), Ok(1));
    assert_eq!(
        locate_cell(AppInfo::Missing, &app, &dna),
        Err(PublishError::AppNotFound("my-app".to_string()))
    );
    assert_eq!(
        locate_cell(AppInfo::Remote("denied".to_string()), &app, &dna),
        Err(PublishError::Remote { procedure: Procedure::AppInfo, unit: None, message: "denied".to_string() })
    );
    assert_eq!(
        locate_cell(AppInfo::Unexpected, &app, &dna),
        Err(PublishError::ProtocolMismatch { procedure: Procedure::AppInfo, unit: None })
    );
    assert_eq!(
        locate_cell(AppInfo::Transport("closed".to_string()), &app, &dna),
        Err(PublishError::Connection("closed".to_string()))
    );
}

#[test]
fn procedure_names() {
    assert_eq!(Procedure::StoreChunk.zome_name(), "file_storage");
    assert_eq!(Procedure::StoreChunk.fn_name(), "create_file_chunk");
    assert_eq!(Procedure::CreateFileMetadata.zome_name(), "file_storage");
    assert_eq!(Procedure::CreateFileMetadata.fn_name(), "create_file_metadata");
    assert_eq!(Procedure::PublishZome.zome_name(), "compository");
    assert_eq!(Procedure::PublishZome.fn_name(), "publish_zome");
    assert_eq!(Procedure::PublishTemplate.fn_name(), "publish_dna_template");
    assert_eq!(Procedure::PublishInstance.fn_name(), "publish_instantiated_dna");
    assert_eq!(Procedure::AppInfo.fn_name(), "app_info");
}

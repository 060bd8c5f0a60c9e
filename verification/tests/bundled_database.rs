use roblox_enum::enum_item::{EnumItemUserData, EnumUserData};
use roblox_enum::error::InternalConsistencyError;
use roblox_enum::value::EnumValue;

fn key_code() -> EnumItemUserData {
    EnumUserData.meta_index("KeyCode").unwrap()
}

#[test]
fn key_code_return_is_thirteen() {
    let group = key_code();
    assert_eq!(group.to_string(), "Enum.KeyCode");
    assert_eq!(group.meta_index("Return"), Ok(EnumValue { value: 13 }));
}

#[test]
fn present_group_has_its_name_and_text() {
    for name in ["KeyCode", "Material", "NormalId", "SortOrder"] {
        let group = EnumUserData.meta_index(name).unwrap();
        assert_eq!(group.name(), name);
        assert_eq!(group.to_string(), format!("Enum.{}", name));
    }
}

#[test]
fn unknown_group_is_reported_by_name() {
    let error = EnumUserData.meta_index("NoSuchGroup").unwrap_err();
    assert_eq!(
        error,
        InternalConsistencyError::UnknownGroup { group: "NoSuchGroup".to_string() }
    );
    assert!(error.to_string().contains("NoSuchGroup"));
}

#[test]
fn unknown_item_is_reported_with_its_group() {
    let error = key_code().meta_index("NoSuchItem").unwrap_err();
    assert_eq!(
        error,
        InternalConsistencyError::UnknownItem {
            group: "KeyCode".to_string(),
            item: "NoSuchItem".to_string(),
        }
    );
    let text = error.to_string();
    assert!(text.contains("NoSuchItem"));
    assert!(text.contains("KeyCode"));
}

#[test]
fn items_match_the_database() {
    let database = rbx_reflection_database::get();
    let descriptor = database.enums.get("NormalId").unwrap();
    let group = EnumUserData.meta_index("NormalId").unwrap();
    assert!(!descriptor.items.is_empty());
    for (name, number) in descriptor.items.iter() {
        assert_eq!(group.meta_index(name), Ok(EnumValue::from(*number)));
    }
}

#[test]
fn group_names_are_case_sensitive() {
    assert!(EnumUserData.meta_index("keycode").is_err());
    assert!(EnumUserData.meta_index("").is_err());
    assert!(key_code().meta_index("return").is_err());
    assert!(key_code().meta_index("").is_err());
}

#[test]
fn an_item_of_another_group_is_unknown() {
    let group = EnumUserData.meta_index("NormalId").unwrap();
    assert_eq!(group.meta_index("Top"), Ok(EnumValue { value: 1 }));
    assert_eq!(
        group.meta_index("Return"),
        Err(InternalConsistencyError::UnknownItem {
            group: "NormalId".to_string(),
            item: "Return".to_string(),
        })
    );
}

#[test]
fn resolving_twice_gives_the_same_outcome() {
    let group = key_code();
    assert_eq!(group.meta_index("Return"), group.meta_index("Return"));
    assert_eq!(group.meta_index("NoSuchItem"), group.meta_index("NoSuchItem"));
    assert_eq!(
        EnumUserData.meta_index("NoSuchGroup").unwrap_err(),
        EnumUserData.meta_index("NoSuchGroup").unwrap_err()
    );
    assert_eq!(key_code().meta_index("Return"), Ok(EnumValue { value: 13 }));
}

#[test]
fn equality_follows_the_names() {
    let first = key_code();
    let again = key_code();
    let other = EnumUserData.meta_index("Material").unwrap();
    assert!(first.equals(&first));
    assert!(first.equals(&again));
    assert!(again.equals(&first));
    assert!(!first.equals(&other));
    assert!(!other.equals(&first));
    assert!(first.equals(&first.clone()));
}

use ic_tx::backend::hashmap::HashmapBackend;
use ic_tx::backend::Backend;
use ic_tx::error::TxError;
use ic_tx::model::{Model, NewModel};
use std::collections::HashMap;

#[test]
fn hashmap_save_should_save_a_model() {
    // Arrange
    let mut backend = HashmapBackend::new();
    let model = NewModel { id: 1, data: 1123 };

    // Act
    backend.save(model.clone()).unwrap();
    let fetched_model = backend.fetch_one(&model.id).unwrap();
    let fetched_model_opt = backend.fetch_option_one(&model.id).unwrap();

    // Assert
    assert_eq!(model.id, fetched_model.id);
    assert_eq!(model.data, fetched_model.data);
    assert_eq!(0, fetched_model.version);

    assert_eq!(Some(fetched_model), fetched_model_opt);
}

#[test]
fn hashmap_save_should_fail_if_key_exists() {
    // Arrange
    let mut backend = HashmapBackend::new();
    let model = NewModel { id: 1, data: 1123 };

    // Act
    let first_save = backend.save(model.clone());
    let second_save = backend.save(model.clone());
    let fetched_model = backend.fetch_one(&model.id).unwrap();

    // Assert
    assert!(first_save.is_ok());
    assert!(second_save.is_err());
    assert_eq!(model.id, fetched_model.id);
    assert_eq!(model.data, fetched_model.data);
    assert_eq!(0, fetched_model.version);
}

#[test]
fn hashmap_fetch_one_should_fail_if_missing() {
    // Arrange
    let backend = HashmapBackend::<i32, i32>::new();

    // Act
    let fetched_model = backend.fetch_one(&0);

    // Assert
    assert!(fetched_model.is_err());
}

#[test]
fn hashmap_fetch_option_one_should_return_none_if_missing() {
    // Arrange
    let backend = HashmapBackend::<i32, i32>::new();

    // Act
    let fetched_model = backend.fetch_option_one(&0).unwrap();

    // Assert
    assert!(fetched_model.is_none());
}

#[test]
fn hashmap_should_return_the_version() {
    // Arrange
    let mut backend = HashmapBackend::new();
    let model = NewModel { id: 1, data: 1123 };

    // Act
    backend.save(model.clone()).unwrap();
    let fetched_version = backend.fetch_version(&model.id).unwrap();

    // Assert
    assert_eq!(0, fetched_version);
}

#[test]
fn hashmap_fetch_version_should_fail_if_missing() {
    // Arrange
    let backend = HashmapBackend::<i32, i32>::new();

    // Act
    let fetched_model = backend.fetch_version(&0);

    // Assert
    assert!(fetched_model.is_err());
}

#[test]
fn hashmap_fetch_option_version_should_return_none_if_missing() {
    // Arrange
    let backend = HashmapBackend::<i32, i32>::new();

    // Act
    let fetched_model = backend.fetch_option_version(&0).unwrap();

    // Assert
    assert!(fetched_model.is_none());
}

#[test]
fn hashmap_update_should_update_a_model() {
    // Arrange
    let mut backend = HashmapBackend::new();
    let model = NewModel { id: 1, data: 1111 };
    backend.save(model.clone()).unwrap();
    let fetched_model_0 = backend.fetch_one(&model.id).unwrap();

    // Act
    let mut updated_model = fetched_model_0.clone();
    updated_model.data = 2222;
    backend.update(updated_model.clone()).unwrap();
    let fetched_model_1 = backend.fetch_one(&model.id).unwrap();

    // Assert
    assert_eq!(model.id, fetched_model_0.id);
    assert_eq!(model.data, fetched_model_0.data);
    assert_eq!(0, fetched_model_0.version);

    assert_eq!(model.id, fetched_model_1.id);
    assert_eq!(updated_model.data, fetched_model_1.data);
    assert_eq!(1, fetched_model_1.version);
}

#[test]
fn hashmap_update_should_fail_if_key_does_not_exists() {
    // Arrange
    let mut backend = HashmapBackend::new();
    let model = Model { id: 1, version: 0, data: 1111 };

    // Act
    let update_result = backend.update(model.clone());
    let fetched_model = backend.fetch_option_one(&model.id).unwrap();

    // Assert
    assert!(update_result.is_err());
    assert!(fetched_model.is_none());
}

#[test]
fn hashmap_update_should_fail_if_version_mismatch() {
    // Arrange
    let mut backend = HashmapBackend::new();
    let model = NewModel { id: 1, data: 1111 };
    backend.save(model.clone()).unwrap();
    let fetched_model_0 = backend.fetch_one(&model.id).unwrap();

    // Act
    let result_1 = backend.update(fetched_model_0.clone());
    // this should fail because the version does not match
    let result_2 = backend.update(fetched_model_0.clone());

    let fetched_model_1 = backend.fetch_one(&model.id).unwrap();
    let result_3 = backend.update(fetched_model_1.clone());
    let fetched_model_2 = backend.fetch_one(&model.id).unwrap();

    // Assert
    assert_eq!(model.id, fetched_model_0.id);
    assert_eq!(model.data, fetched_model_0.data);
    assert_eq!(0, fetched_model_0.version);

    assert!(result_1.is_ok());
    assert!(result_2.is_err());
    assert!(result_3.is_ok());

    assert_eq!(model.id, fetched_model_1.id);
    assert_eq!(1, fetched_model_1.version);

    assert_eq!(model.id, fetched_model_2.id);
    assert_eq!(2, fetched_model_2.version);
}

#[test]
fn hashmap_delete_should_delete_a_model() {
    // Arrange
    let mut backend = HashmapBackend::new();
    let model = NewModel { id: 1, data: 1123 };
    backend.save(model.clone()).unwrap();

    // Act
    let fetched_before = backend.fetch_option_one(&model.id).unwrap();
    let delete_result_1 = backend.delete(&model.id);
    let fetched_after = backend.fetch_option_one(&model.id).unwrap();
    let delete_result_2 = backend.delete(&model.id);

    // Assert
    assert!(fetched_before.is_some());
    assert!(delete_result_1.is_ok());
    assert!(fetched_after.is_none());
    assert!(delete_result_2.is_err());
}

#[test]
fn hashmap_delete_option_should_delete_a_model() {
    // Arrange
    let mut backend = HashmapBackend::new();
    let model = NewModel { id: 1, data: 1123 };
    backend.save(model.clone()).unwrap();

    // Act
    let fetched_before = backend.fetch_option_one(&model.id).unwrap();
    let delete_result_1 = backend.delete_option(&model.id).unwrap();
    let fetched_after = backend.fetch_option_one(&model.id).unwrap();
    let delete_result_2 = backend.delete_option(&model.id).unwrap();

    // Assert
    assert!(fetched_before.is_some());
    assert!(delete_result_1);
    assert!(fetched_after.is_none());
    assert!(!delete_result_2);
}

#[test]
fn hashmap_errors_have_the_variant_of_their_cause() {
    let mut backend = HashmapBackend::<i32, i32>::new();
    backend.save(NewModel::new(1, 10)).unwrap();

    assert!(matches!(backend.fetch_one(&2), Err(TxError::FetchNotFoundError { .. })));
    assert!(matches!(backend.fetch_version(&2), Err(TxError::FetchNotFoundError { .. })));
    assert!(matches!(backend.save(NewModel::new(1, 11)), Err(TxError::SaveError { .. })));
    assert!(matches!(
        backend.update(Model::from((2, 0, 10))),
        Err(TxError::UpdateError { .. })
    ));
    assert!(matches!(
        backend.update(Model::from((1, 7, 10))),
        Err(TxError::UpdateOptimisticLockError { .. })
    ));
    assert!(matches!(backend.delete(&2), Err(TxError::DeleteError { .. })));

    // none of the refused calls has changed a record
    assert_eq!(Model::from((1, 0, 10)), backend.fetch_one(&1).unwrap());
    assert_eq!(None, backend.fetch_option_one(&2).unwrap());
}

#[test]
fn hashmap_error_messages_name_id_and_versions() {
    let mut backend = HashmapBackend::<i32, i32>::new();
    backend.save(NewModel::new(42, 10)).unwrap();

    assert_eq!(
        Err(TxError::FetchNotFoundError { message: "Cannot find model with id [7]".to_string() }),
        backend.fetch_one(&7)
    );
    assert_eq!(
        Err(TxError::FetchNotFoundError { message: "Cannot find model with id [7]".to_string() }),
        backend.fetch_version(&7)
    );
    assert_eq!(
        Err(TxError::SaveError {
            message: "Cannot save model with id [42] because the id is already in use."
                .to_string()
        }),
        backend.save(NewModel::new(42, 11))
    );
    assert_eq!(
        Err(TxError::UpdateError {
            message: "Cannot update model with id [7] because it does not exist.".to_string()
        }),
        backend.update(Model::from((7, 0, 10)))
    );
    assert_eq!(
        Err(TxError::UpdateOptimisticLockError {
            message: "Cannot update model with id [42]. Expected version [3], version found [0]"
                .to_string()
        }),
        backend.update(Model::from((42, 3, 10)))
    );
    assert_eq!(
        Err(TxError::DeleteError {
            message: "Cannot delete model with id [7] because it does not exist.".to_string()
        }),
        backend.delete(&7)
    );
}

#[test]
fn hashmap_update_keeps_the_maximum_version() {
    let mut map = HashMap::new();
    map.insert(1, Model::from((1, u32::MAX - 1, 10)));
    let mut backend = HashmapBackend::with_map(map);

    backend.update(Model::from((1, u32::MAX - 1, 11))).unwrap();
    assert_eq!(Model::from((1, u32::MAX, 11)), backend.fetch_one(&1).unwrap());

    backend.update(Model::from((1, u32::MAX, 12))).unwrap();
    assert_eq!(Model::from((1, u32::MAX, 12)), backend.fetch_one(&1).unwrap());
}

#[test]
fn hashmap_with_map_holds_the_records_of_the_map() {
    let mut map = HashMap::new();
    map.insert(7, Model::from((7, 3, 9)));
    map.insert(1, Model::from((1, 0, 10)));
    map.insert(2, Model::from((2, u32::MAX, 20)));
    let given = map.clone();
    let mut backend = HashmapBackend::with_map(map);

    for k in [1, 2, 3, 7, 9] {
        assert_eq!(Ok(given.get(&k).cloned()), backend.fetch_option_one(&k));
        assert_eq!(Ok(given.get(&k).map(|m| m.version())), backend.fetch_option_version(&k));
    }
    assert_eq!(Ok(Model::from((7, 3, 9))), backend.fetch_one(&7));
    assert_eq!(Ok(3), backend.fetch_version(&7));

    // the versions given are the ones that an update is held against
    assert!(matches!(
        backend.update(Model::from((7, 0, 90))),
        Err(TxError::UpdateOptimisticLockError { .. })
    ));
    assert_eq!(Ok(()), backend.update(Model::from((7, 3, 90))));
    assert_eq!(Ok(Model::from((7, 4, 90))), backend.fetch_one(&7));
    assert!(matches!(backend.save(NewModel::new(1, 11)), Err(TxError::SaveError { .. })));
}

#[test]
fn hashmap_keeps_other_records_through_every_write() {
    let mut backend = HashmapBackend::<i32, i32>::new();
    backend.save(NewModel::new(1, 10)).unwrap();
    backend.save(NewModel::new(2, 20)).unwrap();
    backend.save(NewModel::new(3, 30)).unwrap();

    backend.update(Model::from((2, 0, 21))).unwrap();
    assert!(backend.delete_option(&3).unwrap());
    backend.delete(&1).unwrap();

    assert_eq!(None, backend.fetch_option_one(&1).unwrap());
    assert_eq!(Some(Model::from((2, 1, 21))), backend.fetch_option_one(&2).unwrap());
    assert_eq!(None, backend.fetch_option_one(&3).unwrap());
}

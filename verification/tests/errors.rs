use ic_tx::error::TxError;

#[test]
fn error_constructors_give_variant_and_message() {
    assert_eq!(
        TxError::FetchNotFoundError { message: "Cannot find model with id [9]".to_string() },
        TxError::not_found(&9)
    );
    assert_eq!(
        TxError::SaveError {
            message: "Cannot save model with id [abc] because the id is already in use."
                .to_string()
        },
        TxError::id_in_use(&"abc")
    );
    assert_eq!(
        TxError::UpdateError {
            message: "Cannot update model with id [9] because it does not exist.".to_string()
        },
        TxError::update_of_missing(&9)
    );
    assert_eq!(
        TxError::UpdateOptimisticLockError {
            message: "Cannot update model with id [9]. Expected version [2], version found [3]"
                .to_string()
        },
        TxError::update_of_stale(&9, 2, 3)
    );
    assert_eq!(
        TxError::DeleteError {
            message: "Cannot delete model with id [9] because it does not exist.".to_string()
        },
        TxError::delete_of_missing(&9)
    );
    assert_eq!(
        TxError::DeleteOptimisticLockError {
            message:
                "Cannot delete model with id [-9]. Expected version [0], version found [4294967295]"
                    .to_string()
        },
        TxError::delete_of_stale(&-9, 0, u32::MAX)
    );
}

#[test]
fn error_description_is_variant_colon_message() {
    let message = "m".to_string();
    assert_eq!("FetchError: m", TxError::FetchError { message: message.clone() }.description());
    assert_eq!(
        "FetchNotFoundError: m",
        TxError::FetchNotFoundError { message: message.clone() }.description()
    );
    assert_eq!(
        "UpdateOptimisticLockError: m",
        TxError::UpdateOptimisticLockError { message: message.clone() }.description()
    );
    assert_eq!("UpdateError: m", TxError::UpdateError { message: message.clone() }.description());
    assert_eq!("SaveError: m", TxError::SaveError { message: message.clone() }.description());
    assert_eq!("DeleteError: m", TxError::DeleteError { message: message.clone() }.description());
    assert_eq!(
        "DeleteNotFoundError: m",
        TxError::DeleteNotFoundError { message: message.clone() }.description()
    );
    assert_eq!(
        "DeleteOptimisticLockError: m",
        TxError::DeleteOptimisticLockError { message }.description()
    );
    assert_eq!(
        "FetchNotFoundError: Cannot find model with id [1]",
        TxError::not_found(&1).description()
    );
}

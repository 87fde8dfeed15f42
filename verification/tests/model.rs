use ic_tx::model::{Model, NewModel};

#[derive(Clone, PartialEq, Debug)]
struct SimpleData {
    name: String,
}

#[test]
fn model_model_should_impl_debug_if_data_is_debug() {
    let model = Model { id: 1, version: 1, data: SimpleData { name: "test".to_owned() } };

    println!("Debug model: {:?}", model);
}

#[test]
fn model_new_model_should_impl_debug_if_data_is_debug() {
    let model = NewModel::new(0, SimpleData { name: "test".to_owned() });

    println!("Debug model: {:?}", model);
}

#[test]
fn model_should_build_new_model_version() {
    let model = Model { id: 10, version: 10, data: SimpleData { name: "test".to_owned() } };

    let new_model_version = model.clone().into_new_version();

    assert_eq!(model.data, new_model_version.data);
    assert_eq!(model.id, new_model_version.id);
    assert_eq!(model.version + 1, new_model_version.version);
}

#[test]
fn model_new_version_stays_at_the_maximum() {
    let model = Model { id: 10, version: u32::MAX, data: 5 };

    let new_model_version = model.clone().into_new_version();

    assert_eq!(Model { id: 10, version: u32::MAX, data: 5 }, new_model_version);
    assert_eq!(u32::MAX, new_model_version.version());
}

#[test]
fn model_from_new_starts_at_version_zero() {
    let model = Model::from_new(NewModel::new(7, "payload".to_string()));

    assert_eq!(Model { id: 7, version: 0, data: "payload".to_string() }, model);
    assert_eq!(0, model.version());
}

#[test]
fn model_conversions_keep_what_they_are_given() {
    assert_eq!(Model { id: 7, version: 0, data: 70 }, Model::from(NewModel::new(7, 70)));
    assert_eq!(Model { id: 7, version: 0, data: 70 }, Model::from((7, 70)));
    assert_eq!(Model { id: 7, version: 3, data: 70 }, Model::from((7, 3, 70)));
    assert_eq!(NewModel { id: 7, data: 70 }, NewModel::from((7, 70)));
    assert_eq!(3, Model::from((7, 3, 70)).version());
}

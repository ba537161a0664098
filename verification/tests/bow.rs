use bow_solver::bow::{
    get_application_version, LayerAlignment, SimulationMode, VersionedWrapper,
    VersionedWrapperRef, CURRENT_APPLICATION_VERSION, FILE_VERSION,
};

#[test]
fn application_version_of_each_file_version() {
    assert_eq!(get_application_version(0), Some("0.7.0"));
    assert_eq!(get_application_version(1), Some("0.8.0"));
    assert_eq!(get_application_version(2), Some("0.9.0"));
    assert_eq!(
        get_application_version(FILE_VERSION),
        Some(CURRENT_APPLICATION_VERSION)
    );
}

#[test]
fn versioned_wrappers_carry_version_and_data() {
    let wrapper = VersionedWrapper::new(FILE_VERSION, vec![1u8, 2, 3]);
    assert_eq!(wrapper.version, 3);
    assert_eq!(wrapper.data, vec![1u8, 2, 3]);

    let data = String::from("payload");
    let wrapper = VersionedWrapperRef::new(2, &data);
    assert_eq!(wrapper.version, 2);
    assert_eq!(wrapper.data, "payload");
}

#[test]
fn mode_and_alignment_equality() {
    assert_eq!(SimulationMode::Static, SimulationMode::Static);
    assert_ne!(SimulationMode::Static, SimulationMode::Dynamic);

    assert_eq!(LayerAlignment::SectionBack, LayerAlignment::SectionBack);
    assert_ne!(LayerAlignment::SectionBack, LayerAlignment::SectionBelly);
    assert_eq!(LayerAlignment::LayerCenter(2), LayerAlignment::LayerCenter(2));
    assert_ne!(LayerAlignment::LayerCenter(2), LayerAlignment::LayerCenter(3));
    assert_ne!(LayerAlignment::LayerBack(0), LayerAlignment::LayerBelly(0));
}

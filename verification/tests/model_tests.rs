use tfmicro::error::Error;
use tfmicro::model::Model;
use tfmicro::model::SCHEMA_VERSION;

/// A header as model files carry it: the root table at byte 28, the
/// identifier, the field directory at byte 10, and schema version 3.
fn header() -> Vec<u8> {
    vec![
        0x1c, 0x00, 0x00, 0x00, 0x54, 0x46, 0x4c, 0x33, 0x00, 0x00, 0x12, 0x00, 0x1c, 0x00, 0x04,
        0x00, 0x08, 0x00, 0x0c, 0x00, 0x10, 0x00, 0x14, 0x00, 0x00, 0x00, 0x18, 0x00, 0x12, 0x00,
        0x00, 0x00, 0x03, 0x00, 0x00, 0x00, 0xaa, 0xbb, 0xcc, 0xdd,
    ]
}

#[test]
fn a_model_with_identifier_and_version_is_accepted() {
    let bytes = header();
    let model = Model::from_buffer(&bytes).expect("the header is valid");
    assert_eq!(model.version(), SCHEMA_VERSION);
    assert_eq!(model.version(), 3);
    assert_eq!(model.buffer(), &bytes[..]);
}

#[test]
fn a_wrong_identifier_is_refused() {
    let mut bytes = header();
    bytes[7] = 0x32;
    assert_eq!(Model::from_buffer(&bytes).err(), Some(Error::InvalidModel));
}

#[test]
fn another_schema_version_is_refused() {
    let mut bytes = header();
    bytes[32] = 2;
    assert_eq!(Model::from_buffer(&bytes).err(), Some(Error::InvalidModel));
    bytes[32] = 3;
    bytes[35] = 1;
    assert_eq!(Model::from_buffer(&bytes).err(), Some(Error::InvalidModel));
}

#[test]
fn a_truncated_buffer_is_refused() {
    let bytes = header();
    for len in 0..36 {
        assert_eq!(Model::from_buffer(&bytes[..len]).err(), Some(Error::InvalidModel), "{}", len);
    }
    assert!(Model::from_buffer(&bytes[..36]).is_ok());
}

#[test]
fn a_header_that_points_outside_the_buffer_is_refused() {
    let mut bytes = header();
    // The root table lies beyond the end.
    bytes[0] = 0x26;
    assert_eq!(Model::from_buffer(&bytes).err(), Some(Error::InvalidModel));
    // The field directory lies before the start.
    let mut bytes = header();
    bytes[28] = 0x1d;
    assert_eq!(Model::from_buffer(&bytes).err(), Some(Error::InvalidModel));
    // The field directory lies beyond the end: a negative distance back.
    let mut bytes = header();
    bytes[28] = 0xf0;
    bytes[29] = 0xff;
    bytes[30] = 0xff;
    bytes[31] = 0xff;
    assert_eq!(Model::from_buffer(&bytes).err(), Some(Error::InvalidModel));
}

#[test]
fn a_header_without_a_version_field_is_refused() {
    // The directory is too short to hold the field.
    let mut bytes = header();
    bytes[10] = 0x04;
    assert_eq!(Model::from_buffer(&bytes).err(), Some(Error::InvalidModel));
    // The field is marked absent.
    let mut bytes = header();
    bytes[14] = 0x00;
    assert_eq!(Model::from_buffer(&bytes).err(), Some(Error::InvalidModel));
}

#[test]
fn the_version_is_read_where_the_directory_says() {
    // The version field moved to byte 8 of the table.
    let mut bytes = header();
    bytes[14] = 0x08;
    assert_eq!(Model::from_buffer(&bytes).err(), Some(Error::InvalidModel));
    bytes[36] = 3;
    bytes[37] = 0;
    bytes[38] = 0;
    bytes[39] = 0;
    assert!(Model::from_buffer(&bytes).is_ok());
}

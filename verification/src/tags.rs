//! Standard tag numbers used by the core: `(group << 16) | element`.

use vstd::prelude::*;

verus! {

// File-meta group.
pub const FILE_META_INFORMATION_GROUP_LENGTH: u32 = 0x0002_0000;
pub const MEDIA_STORAGE_SOP_CLASS_UID: u32 = 0x0002_0002;
pub const MEDIA_STORAGE_SOP_INSTANCE_UID: u32 = 0x0002_0003;
pub const TRANSFER_SYNTAX_UID: u32 = 0x0002_0010;

// Delimiters.
pub const ITEM: u32 = 0xFFFE_E000;
pub const ITEM_DELIMITATION_ITEM: u32 = 0xFFFE_E00D;
pub const SEQUENCE_DELIMITATION_ITEM: u32 = 0xFFFE_E0DD;

// Identification and grouping.
pub const SPECIFIC_CHARACTER_SET: u32 = 0x0008_0005;
pub const SOP_CLASS_UID: u32 = 0x0008_0016;
pub const SOP_INSTANCE_UID: u32 = 0x0008_0018;
pub const SERIES_DESCRIPTION: u32 = 0x0008_103E;
pub const PATIENTS_NAME: u32 = 0x0010_0010;
pub const PATIENT_ID: u32 = 0x0010_0020;
pub const STUDY_INSTANCE_UID: u32 = 0x0020_000D;
pub const SERIES_INSTANCE_UID: u32 = 0x0020_000E;

// Geometry.
pub const IMAGE_POSITION_PATIENT: u32 = 0x0020_0032;
pub const IMAGE_ORIENTATION_PATIENT: u32 = 0x0020_0037;
pub const SLICE_THICKNESS: u32 = 0x0018_0050;
pub const SPACING_BETWEEN_SLICES: u32 = 0x0018_0088;
pub const PATIENT_POSITION: u32 = 0x0018_5100;

// Pixel-data interpretation.
pub const SAMPLES_PER_PIXEL: u32 = 0x0028_0002;
pub const PHOTOMETRIC_INTERPRETATION: u32 = 0x0028_0004;
pub const PLANAR_CONFIGURATION: u32 = 0x0028_0006;
pub const NUMBER_OF_FRAMES: u32 = 0x0028_0008;
pub const ROWS: u32 = 0x0028_0010;
pub const COLUMNS: u32 = 0x0028_0011;
pub const PIXEL_SPACING: u32 = 0x0028_0030;
pub const BITS_ALLOCATED: u32 = 0x0028_0100;
pub const BITS_STORED: u32 = 0x0028_0101;
pub const HIGH_BIT: u32 = 0x0028_0102;
pub const PIXEL_REPRESENTATION: u32 = 0x0028_0103;
pub const PIXEL_PADDING_VALUE: u32 = 0x0028_0120;
pub const WINDOW_CENTER: u32 = 0x0028_1050;
pub const WINDOW_WIDTH: u32 = 0x0028_1051;
pub const RESCALE_INTERCEPT: u32 = 0x0028_1052;
pub const RESCALE_SLOPE: u32 = 0x0028_1053;
pub const RESCALE_TYPE: u32 = 0x0028_1054;
pub const WINDOW_CENTER_WIDTH_EXPLANATION: u32 = 0x0028_1055;
pub const UNITS: u32 = 0x0054_1001;
pub const PIXEL_DATA: u32 = 0x7FE0_0010;

// DIMSE command group.
pub const AFFECTED_SOP_CLASS_UID: u32 = 0x0000_0002;
pub const COMMAND_FIELD: u32 = 0x0000_0100;
pub const MESSAGE_ID: u32 = 0x0000_0110;
pub const MESSAGE_ID_BEING_RESPONDED_TO: u32 = 0x0000_0120;
pub const PRIORITY: u32 = 0x0000_0700;
pub const COMMAND_DATA_SET_TYPE: u32 = 0x0000_0800;
pub const STATUS: u32 = 0x0000_0900;
pub const AFFECTED_SOP_INSTANCE_UID: u32 = 0x0000_1000;

// Query keys.
pub const QUERY_RETRIEVE_LEVEL: u32 = 0x0008_0052;

/// Whether a tag is one of the three delimiter tags, which never carry a VR.
pub open spec fn spec_is_delimiter(tag: u32) -> bool {
    tag == ITEM || tag == ITEM_DELIMITATION_ITEM || tag == SEQUENCE_DELIMITATION_ITEM
}

/// Whether a tag is one of the three delimiter tags.
pub fn is_delimiter(tag: u32) -> (r: bool)
    ensures
        r == spec_is_delimiter(tag),
{
    tag == ITEM || tag == ITEM_DELIMITATION_ITEM || tag == SEQUENCE_DELIMITATION_ITEM
}

/// Whether a tag belongs to the file-meta group 0x0002.
pub open spec fn spec_is_file_meta(tag: u32) -> bool {
    tag / 0x1_0000 == 2
}

/// Whether a tag belongs to the file-meta group 0x0002.
pub fn is_file_meta(tag: u32) -> (r: bool)
    ensures
        r == spec_is_file_meta(tag),
{
    tag / 0x1_0000 == 2
}

/// The implicit VR of a standard tag, for parsing under an implicit-VR
/// transfer syntax. Unknown tags resolve to UN.
pub open spec fn spec_implicit_vr_of(tag: u32) -> crate::vr::Vr {
    match tag {
        FILE_META_INFORMATION_GROUP_LENGTH => crate::vr::Vr::UL,
        MEDIA_STORAGE_SOP_CLASS_UID => crate::vr::Vr::UI,
        MEDIA_STORAGE_SOP_INSTANCE_UID => crate::vr::Vr::UI,
        TRANSFER_SYNTAX_UID => crate::vr::Vr::UI,
        SPECIFIC_CHARACTER_SET => crate::vr::Vr::CS,
        SOP_CLASS_UID => crate::vr::Vr::UI,
        SOP_INSTANCE_UID => crate::vr::Vr::UI,
        SERIES_DESCRIPTION => crate::vr::Vr::LO,
        PATIENTS_NAME => crate::vr::Vr::PN,
        PATIENT_ID => crate::vr::Vr::LO,
        STUDY_INSTANCE_UID => crate::vr::Vr::UI,
        SERIES_INSTANCE_UID => crate::vr::Vr::UI,
        IMAGE_POSITION_PATIENT => crate::vr::Vr::DS,
        IMAGE_ORIENTATION_PATIENT => crate::vr::Vr::DS,
        SLICE_THICKNESS => crate::vr::Vr::DS,
        SPACING_BETWEEN_SLICES => crate::vr::Vr::DS,
        PATIENT_POSITION => crate::vr::Vr::CS,
        SAMPLES_PER_PIXEL => crate::vr::Vr::US,
        PHOTOMETRIC_INTERPRETATION => crate::vr::Vr::CS,
        PLANAR_CONFIGURATION => crate::vr::Vr::US,
        NUMBER_OF_FRAMES => crate::vr::Vr::IS,
        ROWS => crate::vr::Vr::US,
        COLUMNS => crate::vr::Vr::US,
        PIXEL_SPACING => crate::vr::Vr::DS,
        BITS_ALLOCATED => crate::vr::Vr::US,
        BITS_STORED => crate::vr::Vr::US,
        HIGH_BIT => crate::vr::Vr::US,
        PIXEL_REPRESENTATION => crate::vr::Vr::US,
        PIXEL_PADDING_VALUE => crate::vr::Vr::US,
        WINDOW_CENTER => crate::vr::Vr::DS,
        WINDOW_WIDTH => crate::vr::Vr::DS,
        RESCALE_INTERCEPT => crate::vr::Vr::DS,
        RESCALE_SLOPE => crate::vr::Vr::DS,
        RESCALE_TYPE => crate::vr::Vr::LO,
        WINDOW_CENTER_WIDTH_EXPLANATION => crate::vr::Vr::LO,
        UNITS => crate::vr::Vr::CS,
        PIXEL_DATA => crate::vr::Vr::OW,
        AFFECTED_SOP_CLASS_UID => crate::vr::Vr::UI,
        COMMAND_FIELD => crate::vr::Vr::US,
        MESSAGE_ID => crate::vr::Vr::US,
        MESSAGE_ID_BEING_RESPONDED_TO => crate::vr::Vr::US,
        PRIORITY => crate::vr::Vr::US,
        COMMAND_DATA_SET_TYPE => crate::vr::Vr::US,
        STATUS => crate::vr::Vr::US,
        AFFECTED_SOP_INSTANCE_UID => crate::vr::Vr::UI,
        QUERY_RETRIEVE_LEVEL => crate::vr::Vr::CS,
        _ => crate::vr::Vr::UN,
    }
}


/// The implicit VR of a standard tag.
pub fn implicit_vr_of(tag: u32) -> (r: crate::vr::Vr)
    ensures
        r == spec_implicit_vr_of(tag),
{
    match tag {
        FILE_META_INFORMATION_GROUP_LENGTH => crate::vr::Vr::UL,
        MEDIA_STORAGE_SOP_CLASS_UID => crate::vr::Vr::UI,
        MEDIA_STORAGE_SOP_INSTANCE_UID => crate::vr::Vr::UI,
        TRANSFER_SYNTAX_UID => crate::vr::Vr::UI,
        SPECIFIC_CHARACTER_SET => crate::vr::Vr::CS,
        SOP_CLASS_UID => crate::vr::Vr::UI,
        SOP_INSTANCE_UID => crate::vr::Vr::UI,
        SERIES_DESCRIPTION => crate::vr::Vr::LO,
        PATIENTS_NAME => crate::vr::Vr::PN,
        PATIENT_ID => crate::vr::Vr::LO,
        STUDY_INSTANCE_UID => crate::vr::Vr::UI,
        SERIES_INSTANCE_UID => crate::vr::Vr::UI,
        IMAGE_POSITION_PATIENT => crate::vr::Vr::DS,
        IMAGE_ORIENTATION_PATIENT => crate::vr::Vr::DS,
        SLICE_THICKNESS => crate::vr::Vr::DS,
        SPACING_BETWEEN_SLICES => crate::vr::Vr::DS,
        PATIENT_POSITION => crate::vr::Vr::CS,
        SAMPLES_PER_PIXEL => crate::vr::Vr::US,
        PHOTOMETRIC_INTERPRETATION => crate::vr::Vr::CS,
        PLANAR_CONFIGURATION => crate::vr::Vr::US,
        NUMBER_OF_FRAMES => crate::vr::Vr::IS,
        ROWS => crate::vr::Vr::US,
        COLUMNS => crate::vr::Vr::US,
        PIXEL_SPACING => crate::vr::Vr::DS,
        BITS_ALLOCATED => crate::vr::Vr::US,
        BITS_STORED => crate::vr::Vr::US,
        HIGH_BIT => crate::vr::Vr::US,
        PIXEL_REPRESENTATION => crate::vr::Vr::US,
        PIXEL_PADDING_VALUE => crate::vr::Vr::US,
        WINDOW_CENTER => crate::vr::Vr::DS,
        WINDOW_WIDTH => crate::vr::Vr::DS,
        RESCALE_INTERCEPT => crate::vr::Vr::DS,
        RESCALE_SLOPE => crate::vr::Vr::DS,
        RESCALE_TYPE => crate::vr::Vr::LO,
        WINDOW_CENTER_WIDTH_EXPLANATION => crate::vr::Vr::LO,
        UNITS => crate::vr::Vr::CS,
        PIXEL_DATA => crate::vr::Vr::OW,
        AFFECTED_SOP_CLASS_UID => crate::vr::Vr::UI,
        COMMAND_FIELD => crate::vr::Vr::US,
        MESSAGE_ID => crate::vr::Vr::US,
        MESSAGE_ID_BEING_RESPONDED_TO => crate::vr::Vr::US,
        PRIORITY => crate::vr::Vr::US,
        COMMAND_DATA_SET_TYPE => crate::vr::Vr::US,
        STATUS => crate::vr::Vr::US,
        AFFECTED_SOP_INSTANCE_UID => crate::vr::Vr::UI,
        QUERY_RETRIEVE_LEVEL => crate::vr::Vr::CS,
        _ => crate::vr::Vr::UN,
    }
}

} // verus!

//! A verified core for reading, writing, and networking DICOM datasets:
//! byte-exact element parsing, element trees, pixel-data decoding into
//! integer voxel volumes, and the DICOM Upper Layer (DIMSE) protocol.

pub mod assoc;
pub mod bytes;
pub mod cfind;
pub mod charset;
pub mod commands;
pub mod dimse;
pub mod element;
pub mod imgvol;
pub mod load;
pub mod parser;
pub mod pdinfo;
pub mod pdu;
pub mod pdslice;
pub mod pixelbuf;
pub mod pixeldata;
pub mod tags;
pub mod tree;
pub mod ts;
pub mod values;
pub mod vr;
pub mod winlevel;

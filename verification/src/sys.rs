//! Models of the two native symbol tables: the required core table and the
//! optional accelerator extension table.

pub mod tflite;
pub mod xnnpack;

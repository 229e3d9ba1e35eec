//! Planning of record decoders: which reader primitive each field of a record
//! needs, and the decoder that is generated from that plan.

pub mod de;
pub mod decimal;
pub mod emit;
pub mod plan;
pub mod record;
pub mod shape;
pub mod tokens;

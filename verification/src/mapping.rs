//! What every device model offers: to be built from the fields of a frame.

use crate::parser::{Field, FieldModel};
use crate::ve_error::{ErrorModel, VeError};
use vstd::prelude::*;

verus! {

/// A record that can be built from the fields of a frame. A model of
/// device implements this once, with the conversions of this crate; the
/// tokenizer and the checksum know nothing of it.
pub trait FromFields: Sized + View {
    /// The record that the fields give, or the error of the first field,
    /// in the order of the record, that is absent or has the wrong shape.
    spec fn mapped(fields: Seq<FieldModel>) -> Result<Self::V, ErrorModel>;

    /// Builds the record from the fields of a frame. Either the whole
    /// record is returned or an error: no record is ever built in part.
    fn map_fields(fields: &Vec<Field>) -> (r: Result<Self, VeError>)
        ensures
            match r {
                Ok(record) => Self::mapped(fields.deep_view()) == Ok::<Self::V, ErrorModel>(
                    record@,
                ),
                Err(e) => Self::mapped(fields.deep_view()) == Err::<Self::V, ErrorModel>(e@),
            },
    ;
}

} // verus!

//! A value that a query hands back as it came.

use cosmwasm_std::{Binary, DenomUnit};
use vstd::prelude::*;

verus! {

/// `cosmwasm_std::DenomUnit`, carried as an opaque value.
#[verifier::external_type_specification]
#[verifier::external_body]
pub struct ExDenomUnit(DenomUnit);

/// `cosmwasm_std::Binary`, carried as an opaque value.
#[verifier::external_type_specification]
#[verifier::external_body]
pub struct ExBinary(Binary);

/// One value of each shape that a message can carry.
#[derive(Debug, PartialEq)]
#[allow(inconsistent_fields)]
pub enum Object {
    EnumOption1,
    EnumOption2,
    Number { value: i32 },
    OptNumber { value: Option<i32> },
    String { value: String },
    OptString { value: Option<String> },
    DenomUnit { value: DenomUnit },
    OptVecDenomUnit { value: Option<Vec<DenomUnit>> },
    VecU8 { value: Binary },
}

} // verus!

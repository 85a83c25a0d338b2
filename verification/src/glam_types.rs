//! The vector and matrix types of `glam` that vertex and uniform layouts name.

use vstd::prelude::*;

verus! {

/// `glam::Vec2`, a two-component vector.
#[verifier::external_type_specification]
#[verifier::external_body]
pub struct ExVec2(glam::Vec2);

/// `glam::Vec3`, a three-component vector.
#[verifier::external_type_specification]
#[verifier::external_body]
pub struct ExVec3(glam::Vec3);

/// `glam::Vec4`, a four-component vector.
#[verifier::external_type_specification]
#[verifier::external_body]
pub struct ExVec4(glam::Vec4);

/// `glam::Mat4`, a four-by-four matrix.
#[verifier::external_type_specification]
#[verifier::external_body]
pub struct ExMat4(glam::Mat4);

/// `glam::IVec2`, a two-component integer vector.
#[verifier::external_type_specification]
#[verifier::external_body]
pub struct ExIVec2(glam::IVec2);

/// `glam::IVec3`, a three-component integer vector.
#[verifier::external_type_specification]
#[verifier::external_body]
pub struct ExIVec3(glam::IVec3);

/// `glam::IVec4`, a four-component integer vector.
#[verifier::external_type_specification]
#[verifier::external_body]
pub struct ExIVec4(glam::IVec4);

/// `glam::U8Vec4`, a four-component byte vector.
#[verifier::external_type_specification]
#[verifier::external_body]
pub struct ExU8Vec4(glam::U8Vec4);

} // verus!

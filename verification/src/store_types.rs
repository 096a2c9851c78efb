//! The types of `git2` and `git2_ext` that pass through the library. Nothing inside a value
//! of one of them is visible to the proofs.

use vstd::prelude::*;

verus! {

#[verifier::external_type_specification]
#[verifier::external_body]
pub struct ExRepository(git2::Repository);

#[verifier::external_type_specification]
#[verifier::external_body]
pub struct ExGitError(git2::Error);

#[verifier::external_type_specification]
#[verifier::external_body]
pub struct ExIndex(git2::Index);

#[verifier::external_type_specification]
#[verifier::external_body]
pub struct ExHooks(git2_ext::hooks::Hooks);

#[verifier::external_type_specification]
#[verifier::external_body]
pub struct ExUserSign(git2_ext::ops::UserSign);

} // verus!
